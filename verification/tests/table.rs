use blog_service::data::model::Blog;
use blog_service::data::table::BlogTable;

fn blog(blog_id: u128, user_id: u128, name: &str) -> Blog {
    Blog { blog_id, user_id, name: name.to_string() }
}

#[test]
fn table_answers_the_five_statements() {
    let mut table = BlogTable::new();
    assert_eq!(table.load(), Vec::new());
    assert_eq!(table.first(1), None);

    let one = Blog { blog_id: 1, user_id: 10, name: "one".to_string() };
    assert_eq!(table.insert(one.clone()), Some(one.clone()));
    assert_eq!(table.insert(Blog { blog_id: 1, user_id: 0, name: "dup".to_string() }), None);
    assert_eq!(table.first(1), Some(one.clone()));
    assert_eq!(table.load(), vec![one]);

    assert_eq!(table.update(2, 0, "none".to_string()), None);
    let uno = Blog { blog_id: 1, user_id: 11, name: "uno".to_string() };
    assert_eq!(table.update(1, 11, "uno".to_string()), Some(uno.clone()));
    assert_eq!(table.first(1), Some(uno));

    assert_eq!(table.delete(2), 0);
    assert_eq!(table.delete(1), 1);
    assert_eq!(table.delete(1), 0);
    assert_eq!(table.load(), Vec::new());
}

#[test]
fn insert_turns_a_stored_id_away_and_keeps_the_row() {
    let mut table = BlogTable::new();
    assert_eq!(table.insert(blog(7, 1, "kept")), Some(blog(7, 1, "kept")));
    assert_eq!(table.insert(blog(7, 2, "refused")), None);
    assert_eq!(table.first(7), Some(blog(7, 1, "kept")));
    assert_eq!(table.load().len(), 1);
}

#[test]
fn rows_are_found_by_their_own_id_only() {
    let mut table = BlogTable::new();
    table.insert(blog(0, 5, "zero"));
    table.insert(blog(u128::MAX, 6, "max"));
    table.insert(blog(1 << 64, 7, "middle"));

    assert_eq!(table.first(0), Some(blog(0, 5, "zero")));
    assert_eq!(table.first(u128::MAX), Some(blog(u128::MAX, 6, "max")));
    assert_eq!(table.first(1 << 64), Some(blog(1 << 64, 7, "middle")));
    assert_eq!(table.first(1), None);
    assert_eq!(table.first(5), None);
}

#[test]
fn update_touches_one_row() {
    let mut table = BlogTable::new();
    table.insert(blog(1, 10, "one"));
    table.insert(blog(2, 20, "two"));
    table.insert(blog(3, 30, "three"));

    assert_eq!(table.update(2, 21, "zwei".to_string()), Some(blog(2, 21, "zwei")));
    assert_eq!(table.first(1), Some(blog(1, 10, "one")));
    assert_eq!(table.first(2), Some(blog(2, 21, "zwei")));
    assert_eq!(table.first(3), Some(blog(3, 30, "three")));
    assert_eq!(table.load().len(), 3);
}

#[test]
fn delete_takes_one_row_and_leaves_the_others() {
    let mut table = BlogTable::new();
    for id in 1..=4u128 {
        table.insert(blog(id, id * 10, "row"));
    }

    assert_eq!(table.delete(1), 1);
    assert_eq!(table.delete(4), 1);
    assert_eq!(table.first(1), None);
    assert_eq!(table.first(4), None);
    assert_eq!(table.first(2), Some(blog(2, 20, "row")));
    assert_eq!(table.first(3), Some(blog(3, 30, "row")));

    let mut ids: Vec<u128> = table.load().iter().map(|row| row.blog_id).collect();
    ids.sort();
    assert_eq!(ids, vec![2, 3]);
}

#[test]
fn an_id_can_be_used_again_after_its_row_is_deleted() {
    let mut table = BlogTable::new();
    table.insert(blog(1, 10, "first"));
    assert_eq!(table.delete(1), 1);
    assert_eq!(table.insert(blog(1, 11, "second")), Some(blog(1, 11, "second")));
    assert_eq!(table.load(), vec![blog(1, 11, "second")]);
}

#[test]
fn names_are_stored_as_given() {
    let mut table = BlogTable::new();
    table.insert(blog(1, 1, ""));
    table.insert(blog(2, 1, "  spaced  "));
    table.insert(blog(3, 1, "b\u{00fc}cher \u{1f4da}"));

    assert_eq!(table.first(1).unwrap().name, "");
    assert_eq!(table.first(2).unwrap().name, "  spaced  ");
    assert_eq!(table.first(3).unwrap().name, "b\u{00fc}cher \u{1f4da}");
}
