use entity_query::entity::{ColumnDef, EntityDef, EntityName, IdenStatic};
use entity_query::query::{Changeset, CompareOp, Filter, Model, StatementKind};
use entity_query::value::Value;

fn cake() -> EntityDef {
    EntityDef::new(
        "cake".to_string(),
        vec![
            ColumnDef::new("id".to_string()),
            ColumnDef::new("name".to_string()),
        ],
        vec![0],
    )
}

fn cake_filling() -> EntityDef {
    EntityDef::new(
        "cake_filling".to_string(),
        vec![
            ColumnDef::new("cake_id".to_string()),
            ColumnDef::new("filling_id".to_string()),
        ],
        vec![0, 1],
    )
}

fn fruit() -> EntityDef {
    EntityDef::new(
        "fruit".to_string(),
        vec![
            ColumnDef::new("id".to_string()),
            ColumnDef::new("name".to_string()),
            ColumnDef::new("cake_id".to_string()),
        ],
        vec![0],
    )
}

fn eq_filter(col: &str, value: Value) -> Filter {
    Filter {
        col: col.to_string(),
        op: CompareOp::Eq,
        value,
    }
}

#[test]
fn find_projects_all_columns_unfiltered() {
    let select = cake().find();
    assert_eq!(select.table, "cake");
    assert_eq!(select.projection, vec!["id".to_string(), "name".to_string()]);
    assert!(select.filters.is_empty());
}

#[test]
fn find_by_id_single_key() {
    let select = cake().find_by_id(&vec![Value::Int(11)]);
    assert_eq!(select.table, "cake");
    assert_eq!(select.projection, vec!["id".to_string(), "name".to_string()]);
    assert_eq!(select.filters, vec![eq_filter("id", Value::Int(11))]);
}

#[test]
fn find_by_id_composite_key_keeps_key_order() {
    let select = cake_filling().find_by_id(&vec![Value::Int(2), Value::Int(3)]);
    assert_eq!(select.table, "cake_filling");
    assert_eq!(
        select.filters,
        vec![
            eq_filter("cake_id", Value::Int(2)),
            eq_filter("filling_id", Value::Int(3)),
        ]
    );
}

#[test]
fn select_filter_appends_in_insertion_order() {
    let entity = fruit();
    let select = entity
        .find()
        .filter(eq_filter("name", Value::Text("Apple".to_string())))
        .filter(eq_filter("cake_id", Value::Int(1)));
    assert_eq!(
        select.filters,
        vec![
            eq_filter("name", Value::Text("Apple".to_string())),
            eq_filter("cake_id", Value::Int(1)),
        ]
    );
}

#[test]
fn insert_many_empty_yields_zero_rows() {
    let insert = cake().insert_many(vec![]);
    assert_eq!(insert.table, "cake");
    assert!(insert.rows.is_empty());
}

#[test]
fn insert_many_keeps_row_order() {
    let mut apple = Changeset::new(2);
    apple.set(1, Value::Text("Apple Pie".to_string()));
    let mut orange = Changeset::new(2);
    orange.set(1, Value::Text("Orange Scone".to_string()));

    let insert = cake().insert_many(vec![apple, orange]);
    assert_eq!(insert.rows.len(), 2);
    assert_eq!(
        insert.rows[0].values[1],
        Some(Value::Text("Apple Pie".to_string()))
    );
    assert_eq!(
        insert.rows[1].values[1],
        Some(Value::Text("Orange Scone".to_string()))
    );
}

#[test]
fn insert_one_omits_unset_columns() {
    let mut apple = Changeset::new(2);
    apple.set(1, Value::Text("Apple Pie".to_string()));

    let insert = cake().insert(apple);
    assert_eq!(insert.rows.len(), 1);
    let pairs = insert.row_assignments(0);
    assert_eq!(pairs.len(), 1);
    assert_eq!(pairs[0].col, "name");
    assert_eq!(pairs[0].value, Value::Text("Apple Pie".to_string()));
}

#[test]
fn insert_all_unset_row_emits_no_pairs() {
    let insert = cake().insert(Changeset::new(2));
    assert!(insert.row_assignments(0).is_empty());
}

#[test]
fn update_filters_by_key_and_assigns_the_rest() {
    let mut orange = Changeset::new(3);
    orange.set(0, Value::Int(1));
    orange.set(1, Value::Text("Orange".to_string()));

    let update = fruit().update(orange);
    assert_eq!(update.table, "fruit");
    assert_eq!(update.assigns.len(), 1);
    assert_eq!(update.assigns[0].col, "name");
    assert_eq!(update.assigns[0].value, Value::Text("Orange".to_string()));
    assert_eq!(update.filters, vec![eq_filter("id", Value::Int(1))]);
}

#[test]
fn update_many_fresh_carries_zero_filters() {
    for entity in [cake(), cake_filling(), fruit()] {
        let update = entity.update_many();
        assert!(update.filters.is_empty());
        assert!(update.assigns.is_empty());
    }
}

#[test]
fn update_many_set_null_and_filter_contains() {
    let entity = fruit();
    let name = &entity.columns[1];
    let contains_apple = name.contains("Apple");

    let update = entity
        .update_many()
        .set("cake_id".to_string(), Value::Null)
        .filter(contains_apple);

    assert_eq!(update.table, "fruit");
    assert_eq!(update.assigns.len(), 1);
    assert_eq!(update.assigns[0].col, "cake_id");
    assert_eq!(update.assigns[0].value, Value::Null);
    assert_eq!(update.filters.len(), 1);
    assert_eq!(update.filters[0].col, "name");
    assert_eq!(update.filters[0].op, CompareOp::Like);
    assert_eq!(
        update.filters[0].value,
        Value::Text("%Apple%".to_string())
    );
}

#[test]
fn delete_filters_on_every_key_value() {
    let orange = Model {
        values: vec![Value::Int(3), Value::Text("Orange".to_string()), Value::Null],
    };
    let delete = fruit().delete(&orange);
    assert_eq!(delete.table, "fruit");
    assert_eq!(delete.filters, vec![eq_filter("id", Value::Int(3))]);
}

#[test]
fn delete_composite_key_filters_in_key_order() {
    let row = Model {
        values: vec![Value::Int(2), Value::Int(3)],
    };
    let delete = cake_filling().delete(&row);
    assert_eq!(
        delete.filters,
        vec![
            eq_filter("cake_id", Value::Int(2)),
            eq_filter("filling_id", Value::Int(3)),
        ]
    );
}

#[test]
fn delete_many_fresh_carries_zero_filters() {
    let delete = fruit().delete_many();
    assert_eq!(delete.table, "fruit");
    assert!(delete.filters.is_empty());
}

#[test]
fn column_eq_and_contains_build_predicates() {
    let name = ColumnDef::new("name".to_string());
    let by_eq = name.eq(Value::Text("Cheese".to_string()));
    assert_eq!(by_eq.col, "name");
    assert_eq!(by_eq.op, CompareOp::Eq);
    assert_eq!(by_eq.value, Value::Text("Cheese".to_string()));

    let by_contains = name.contains("Chocolate");
    assert_eq!(by_contains.col, "name");
    assert_eq!(by_contains.op, CompareOp::Like);
    assert_eq!(
        by_contains.value,
        Value::Text("%Chocolate%".to_string())
    );
}

#[test]
fn changeset_set_and_unset_are_positional() {
    let mut row = Changeset::new(3);
    assert_eq!(row.values, vec![None, None, None]);
    row.set(2, Value::Bool(true));
    assert_eq!(row.values[2], Some(Value::Bool(true)));
    row.unset(2);
    assert_eq!(row.values[2], None);
}

#[test]
fn builders_report_their_statement_kind() {
    let entity = cake();
    assert_eq!(entity.find().kind(), StatementKind::Select);
    assert_eq!(entity.insert_many(vec![]).kind(), StatementKind::Insert);
    assert_eq!(entity.update_many().kind(), StatementKind::Update);
    assert_eq!(entity.delete_many().kind(), StatementKind::Delete);
}

#[test]
fn insert_add_appends_a_row() {
    let mut apple = Changeset::new(2);
    apple.set(1, Value::Text("Apple Pie".to_string()));
    let mut orange = Changeset::new(2);
    orange.set(1, Value::Text("Orange Scone".to_string()));

    let insert = cake().insert(apple).add(orange);
    assert_eq!(insert.rows.len(), 2);
    assert_eq!(
        insert.rows[1].values[1],
        Some(Value::Text("Orange Scone".to_string()))
    );
}

#[derive(Clone, Copy)]
struct CakeTable;

impl IdenStatic for CakeTable {
    fn as_str(&self) -> &str {
        "cake"
    }
}

impl EntityName for CakeTable {
    fn table_name(&self) -> &str {
        "cake"
    }
}

#[test]
fn module_name_defaults_to_table_name() {
    assert_eq!(CakeTable.as_str(), "cake");
    assert_eq!(CakeTable.table_name(), "cake");
    assert_eq!(CakeTable.module_name(), "cake");
}

#[test]
fn pk_column_names_follow_key_order() {
    assert_eq!(cake().pk_column_names(), vec!["id".to_string()]);
    assert_eq!(
        cake_filling().pk_column_names(),
        vec!["cake_id".to_string(), "filling_id".to_string()]
    );
}
