use frunk_core::hlist::{HCons, HNil};
use tableau::Alignment;
use typed_tableau::{Cell, Header, HeaderedTable, Table, UntypedHeader};

type NameAgeMarried = HCons<Cell<String>, HCons<Cell<usize>, HCons<Cell<bool>, HNil>>>;

fn name_age_married_headers() -> HCons<Header<String>, HCons<Header<usize>, HCons<Header<bool>, HNil>>> {
    HCons {
        head: Header::<String>("Name".to_string()),
        tail: HCons {
            head: Header::<usize>("Age".to_string()),
            tail: HCons { head: Header::<bool>("Married".to_string()), tail: HNil },
        },
    }
}

fn person(name: &str, age: usize, married: bool) -> NameAgeMarried {
    HCons {
        head: Cell::new(name.to_string()),
        tail: HCons { head: Cell::new(age), tail: HCons { head: Cell::new(married), tail: HNil } },
    }
}

fn contents(row: &tableau::Row) -> Vec<String> {
    row.cells.iter().map(|c| c.content.clone()).collect()
}

#[allow(non_snake_case)]
#[test]
fn adding_to_Table() {
    let mut t: Table<HCons<Cell<i32>, HCons<Cell<bool>, HCons<Cell<f32>, HNil>>>> = Table::new();
    for i in 1..11 {
        t.add_row(HCons {
            head: Cell::new(i),
            tail: HCons {
                head: Cell::new(i % 2 == 0),
                tail: HCons { head: Cell::new(i as f32), tail: HNil },
            },
        })
    }
    assert_eq!(t.row_count(), 10)
}

#[allow(non_snake_case)]
#[test]
fn adding_to_Table_with_header() {
    let mut t = HeaderedTable(name_age_married_headers());
    for i in 1..6 {
        t.add_row(HCons {
            head: Cell::new(format!("Joe {}", i)),
            tail: HCons { head: Cell::new(i + 10), tail: HCons { head: Cell::new(i % 2 == 0), tail: HNil } },
        })
    }
    assert_eq!(t.row_count(), 5)
}

#[test]
fn into_untyped() {
    let mut t = HeaderedTable(name_age_married_headers());
    for i in 1..6 {
        t.add_row(HCons {
            head: Cell::new(format!("Joe {}", i)).align(Alignment::Left),
            tail: HCons { head: Cell::new(i + 10), tail: HCons { head: Cell::new(i % 2 == 0), tail: HNil } },
        })
    }
    let u = t.into_untyped();
    assert_eq!(u.rows.len(), 6);
    assert_eq!(contents(&u.rows[0]), vec!["Name", "Age", "Married"]);
    assert_eq!(contents(&u.rows[1]), vec!["Joe 1", "11", "false"]);
    assert_eq!(contents(&u.rows[5]), vec!["Joe 5", "15", "false"]);
    assert_eq!(contents(&u.rows[2]), vec!["Joe 2", "12", "true"]);
}

#[test]
fn people_example_erases_in_order() {
    let mut t = HeaderedTable(name_age_married_headers());
    t.add_row(person("Joe", 10, false));
    t.add_row(person("Mary", 23, true));
    t.add_row(person("John", 53, false));
    t.add_row(person("Rob", 41, true));
    let u = t.into_untyped();
    assert_eq!(u.rows.len(), 5);
    assert_eq!(contents(&u.rows[0]), vec!["Name", "Age", "Married"]);
    assert_eq!(contents(&u.rows[1]), vec!["Joe", "10", "false"]);
    assert_eq!(contents(&u.rows[2]), vec!["Mary", "23", "true"]);
    assert_eq!(contents(&u.rows[3]), vec!["John", "53", "false"]);
    assert_eq!(contents(&u.rows[4]), vec!["Rob", "41", "true"]);
    for row in u.rows.iter() {
        assert_eq!(row.cells.len(), 3);
        assert!(row.has_top_border);
        for c in row.cells.iter() {
            assert_eq!(c.column_span, 1);
            assert!(c.has_padding);
            assert_eq!(c.alignment, Alignment::Left);
        }
    }
}

#[test]
fn table_without_headers_has_no_header_row() {
    let mut t: Table<NameAgeMarried> = Table::new();
    t.add_row(person("Ann", 7, false));
    t.add_row(person("Bob", 8, true));
    let u = t.into_untyped();
    assert_eq!(u.rows.len(), 2);
    assert_eq!(contents(&u.rows[0]), vec!["Ann", "7", "false"]);
    assert_eq!(contents(&u.rows[1]), vec!["Bob", "8", "true"]);
}

#[test]
fn empty_table_erases_to_no_rows() {
    let t: Table<NameAgeMarried> = Table::new();
    assert_eq!(t.row_count(), 0);
    let u = t.into_untyped();
    assert!(u.rows.is_empty());
    assert_eq!(u.style, tableau::Table::new().style);
}

#[test]
fn headers_without_rows_give_only_the_header_row() {
    let t = HeaderedTable(name_age_married_headers());
    let u = t.into_untyped();
    assert_eq!(u.rows.len(), 1);
    assert_eq!(contents(&u.rows[0]), vec!["Name", "Age", "Married"]);
}

#[test]
fn alignment_overrides_reach_the_backend_cells() {
    let headers = HCons {
        head: Header::<String>("Name".to_string()).align(Alignment::Center),
        tail: HCons { head: Header::<u32>("Score".to_string()), tail: HNil },
    };
    let mut t = HeaderedTable(headers);
    t.add_row(HCons {
        head: Cell::new("Zed".to_string()),
        tail: HCons { head: Cell::new(99u32).align(Alignment::Right), tail: HNil },
    });
    let u = t.into_untyped();
    assert_eq!(u.rows[0].cells[0].alignment, Alignment::Center);
    assert_eq!(u.rows[0].cells[1].alignment, Alignment::Left);
    assert_eq!(u.rows[1].cells[0].alignment, Alignment::Left);
    assert_eq!(u.rows[1].cells[1].alignment, Alignment::Right);
    assert_eq!(u.rows[1].cells[1].content, "99");
}

#[test]
fn style_overrides_wrap_the_text() {
    let red = console::Style::new().red().force_styling(true);
    let headers = HCons {
        head: Header::<String>("Name".to_string()).style(red.clone()),
        tail: HCons { head: Header::<i64>("Delta".to_string()), tail: HNil },
    };
    let mut t = HeaderedTable(headers);
    t.add_row(HCons {
        head: Cell::new("Kim".to_string()),
        tail: HCons { head: Cell::new(-5i64).style(red), tail: HNil },
    });
    let u = t.into_untyped();
    let styled_header = &u.rows[0].cells[0].content;
    assert!(styled_header.contains("Name"));
    assert_ne!(styled_header, "Name");
    assert!(styled_header.starts_with('\u{1b}'));
    assert_eq!(u.rows[0].cells[1].content, "Delta");
    assert_eq!(u.rows[1].cells[0].content, "Kim");
    let styled_cell = &u.rows[1].cells[1].content;
    assert!(styled_cell.contains("-5"));
    assert_ne!(styled_cell, "-5");
}

#[test]
fn unforced_style_keeps_the_text_whole() {
    let mut t: Table<HCons<Cell<&str>, HNil>> = Table::new();
    t.add_row(HCons { head: Cell::new("plain").style(console::Style::new().bold()), tail: HNil });
    let u = t.into_untyped();
    assert!(u.rows[0].cells[0].content.contains("plain"));
}

#[test]
fn table_style_is_handed_on() {
    let mut t: Table<HCons<Cell<u8>, HNil>> = Table::new();
    t.style(tableau::Style::ascii());
    t.add_row(HCons { head: Cell::new(1u8), tail: HNil });
    let u = t.into_untyped();
    assert_eq!(u.style, tableau::Style::ascii());
    assert_eq!(contents(&u.rows[0]), vec!["1"]);
}

#[test]
fn header_builder_sets_fields() {
    let h = Header::<bool>("Flag".to_string());
    assert_eq!(h.name, "Flag");
    assert!(h.style.is_none());
    assert!(h.alignment.is_none());
    let h = h.align(Alignment::Right).style(console::Style::new().blue());
    assert_eq!(h.alignment, Some(Alignment::Right));
    assert_eq!(h.style, Some(console::Style::new().blue()));
    let u = UntypedHeader::from(h);
    assert_eq!(u.name, "Flag");
    assert_eq!(u.alignment, Some(Alignment::Right));
}

#[test]
fn cell_builder_sets_fields() {
    let c = Cell::new(3u16);
    assert_eq!(c.val, 3);
    assert!(c.style.is_none());
    assert!(c.alignment.is_none());
    let c = c.style(console::Style::new().green()).align(Alignment::Center);
    assert_eq!(c.val, 3);
    assert_eq!(c.alignment, Some(Alignment::Center));
    assert_eq!(c.style, Some(console::Style::new().green()));
}

#[test]
fn unstyled_backend_cell_holds_the_display_text() {
    let b = Cell::new(1234567u64).into_backend();
    assert_eq!(b.content, "1234567");
    assert_eq!(b.alignment, Alignment::Left);
    let b = UntypedHeader::from(Header::<u8>("Count".to_string()).align(Alignment::Right)).into_backend();
    assert_eq!(b.content, "Count");
    assert_eq!(b.alignment, Alignment::Right);
}

#[test]
fn pushed_rows_keep_their_order() {
    let mut t = HeaderedTable(name_age_married_headers());
    t.push_row(person("Ann", 30, true));
    t.add_row(person("Ben", 31, false));
    t.push_row(person("Cy", 32, true));
    assert_eq!(t.row_count(), 3);
    let u = t.into_untyped();
    assert_eq!(u.rows.len(), 4);
    assert_eq!(contents(&u.rows[1]), vec!["Ann", "30", "true"]);
    assert_eq!(contents(&u.rows[2]), vec!["Ben", "31", "false"]);
    assert_eq!(contents(&u.rows[3]), vec!["Cy", "32", "true"]);
}
