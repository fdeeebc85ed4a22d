use kantocurses::containers::{Container, Image, State};
use kantocurses::containers_table_view::{items_to_columns, ContainerColumn, ContainersTable};
use kantocurses::table_state::TableState;

fn cont(id: &str, name: &str, image: &str, status: &str) -> Container {
    Container {
        id: id.to_string(),
        name: name.to_string(),
        image: Some(Image { name: image.to_string() }),
        state: Some(State { status: status.to_string() }),
    }
}

#[test]
fn rows_sorted_ascending_by_id() {
    let items = vec![cont("b", "second", "img-b", "Running"), cont("a", "first", "img-a", "Stopped")];
    let rows = items_to_columns(items);
    assert_eq!(rows.len(), 2);
    assert_eq!(rows[0].id, "a");
    assert_eq!(rows[1].id, "b");
    assert_eq!(rows[0].name, "first");
    assert_eq!(rows[1].name, "second");
}

#[test]
fn rows_sorted_many_ids() {
    let items = vec![
        cont("b", "n1", "i1", "s1"),
        cont("ab", "n2", "i2", "s2"),
        cont("a", "n3", "i3", "s3"),
        cont("ba", "n4", "i4", "s4"),
    ];
    let rows = items_to_columns(items);
    let ids: Vec<&str> = rows.iter().map(|r| r.id.as_str()).collect();
    assert_eq!(ids, vec!["a", "ab", "b", "ba"]);
}

#[test]
fn duplicate_ids_keep_both_rows() {
    let items = vec![cont("a", "n1", "i1", "s1"), cont("a", "n2", "i2", "s2")];
    let rows = items_to_columns(items);
    assert_eq!(rows.len(), 2);
    assert_eq!(rows[0].name, "n1");
    assert_eq!(rows[1].name, "n2");
}

#[test]
fn empty_listing_gives_no_rows() {
    let rows = items_to_columns(Vec::new());
    assert_eq!(rows.len(), 0);
}

#[test]
fn malformed_record_renders_placeholder_row() {
    let items = vec![
        cont("a", "good-a", "img-a", "Running"),
        Container {
            id: "b".to_string(),
            name: "broken".to_string(),
            image: None,
            state: None,
        },
        cont("c", "good-c", "img-c", "Running"),
    ];
    let rows = items_to_columns(items);
    assert_eq!(rows.len(), 3);
    assert_eq!(rows[1].id, "b");
    assert_eq!(rows[1].name, "broken");
    assert_eq!(rows[1].image, "Unknown?");
    assert_eq!(rows[1].state, "Unknown?");
}

#[test]
fn repeated_refresh_renders_identical_rows() {
    let make = || {
        vec![
            cont("z", "n1", "i1", "Running"),
            cont("m", "n2", "i2", "Stopped"),
            cont("a", "n3", "i3", "Paused"),
        ]
    };
    let rows1 = items_to_columns(make());
    let rows2 = items_to_columns(make());
    assert_eq!(rows1, rows2);
}

#[test]
fn state_to_string_renders_status() {
    let s = kantocurses::containers_table_view::state_to_string(&Some(State {
        status: "Running".to_string(),
    }));
    assert_eq!(s, "Running");
}

#[test]
fn state_to_string_renders_placeholder_when_missing() {
    let s = kantocurses::containers_table_view::state_to_string(&None);
    assert_eq!(s, "Unknown?");
}

#[test]
fn to_column_returns_each_cell() {
    let row = ContainersTable {
        id: "a".to_string(),
        name: "n".to_string(),
        image: "i".to_string(),
        state: "s".to_string(),
    };
    assert_eq!(row.to_column(ContainerColumn::ID), "a");
    assert_eq!(row.to_column(ContainerColumn::Name), "n");
    assert_eq!(row.to_column(ContainerColumn::Image), "i");
    assert_eq!(row.to_column(ContainerColumn::State), "s");
}

#[test]
fn cmp_orders_rows_by_column() {
    let r1 = ContainersTable {
        id: "a".to_string(),
        name: "zz".to_string(),
        image: "i1".to_string(),
        state: "s1".to_string(),
    };
    let r2 = ContainersTable {
        id: "b".to_string(),
        name: "aa".to_string(),
        image: "i1".to_string(),
        state: "s2".to_string(),
    };
    assert_eq!(r1.cmp(&r2, ContainerColumn::ID), std::cmp::Ordering::Less);
    assert_eq!(r1.cmp(&r2, ContainerColumn::Name), std::cmp::Ordering::Greater);
    assert_eq!(r1.cmp(&r2, ContainerColumn::Image), std::cmp::Ordering::Equal);
    assert_eq!(r2.cmp(&r1, ContainerColumn::State), std::cmp::Ordering::Greater);
}

#[test]
fn selection_preserved_when_new_count_is_larger() {
    let mut t = TableState::new();
    t.apply_container_list(vec![cont("a", "n", "i", "s"), cont("b", "n", "i", "s")]);
    assert!(t.select(1));
    t.apply_container_list(vec![
        cont("a", "n", "i", "s"),
        cont("b", "n", "i", "s"),
        cont("c", "n", "i", "s"),
    ]);
    assert_eq!(t.selected, Some(1));
}

#[test]
fn selection_cleared_when_row_disappears() {
    let mut t = TableState::new();
    t.apply_container_list(vec![cont("a", "n", "i", "s"), cont("b", "n", "i", "s")]);
    assert!(t.select(1));
    t.apply_container_list(vec![cont("a", "n", "i", "s")]);
    assert_eq!(t.selected, None);
}

#[test]
fn empty_listing_clears_rows_and_selection() {
    let mut t = TableState::new();
    t.apply_container_list(vec![cont("a", "n", "i", "s")]);
    assert!(t.select(0));
    t.apply_container_list(Vec::new());
    assert_eq!(t.rows.len(), 0);
    assert_eq!(t.selected, None);
}

#[test]
fn select_out_of_range_is_rejected() {
    let mut t = TableState::new();
    t.apply_container_list(vec![cont("a", "n", "i", "s")]);
    assert!(!t.select(5));
    assert_eq!(t.selected, None);
}

#[test]
fn selected_id_names_the_selected_row() {
    let mut t = TableState::new();
    t.apply_container_list(vec![cont("b", "n", "i", "s"), cont("a", "n", "i", "s")]);
    assert!(t.select(1));
    assert_eq!(t.selected_id(), Some("b".to_string()));
}
