use mysql_rows::{
    transform_step, Field, IterState, MysqlRow, MysqlType, NamedMysqlRow, NamedStatementIterator,
    QueryError, QueryResult, RowFold, StatementIterator, StatementMetadata,
};

fn field(name: &str, tpe: MysqlType) -> Field {
    Field { name: name.to_owned(), tpe }
}

fn metadata(names: &[&str]) -> StatementMetadata {
    StatementMetadata::new(names.iter().map(|n| field(n, MysqlType::String)).collect())
}

fn fill(it: &mut StatementIterator, row: &[Option<&[u8]>]) {
    for (i, v) in row.iter().enumerate() {
        it.set_field(i, v.map(|b| b.to_vec()));
    }
}

fn fill_named(it: &mut NamedStatementIterator, row: &[Option<&[u8]>]) {
    for (i, v) in row.iter().enumerate() {
        it.set_field(i, v.map(|b| b.to_vec()));
    }
}

fn raw(v: Option<mysql_rows::MysqlValue<'_>>) -> Option<Vec<u8>> {
    v.map(|v| v.raw.to_vec())
}

fn executed_positional(names: &[&str]) -> StatementIterator {
    let types = vec![Some(MysqlType::String); names.len()];
    let mut it = StatementIterator::new(types, Some(metadata(names))).unwrap();
    it.executed(Ok(())).unwrap();
    it
}

#[test]
fn take_reads_every_column_in_order() {
    let mut it = executed_positional(&["a", "b", "c"]);
    fill(&mut it, &[Some(b"1"), None, Some(b"3")]);
    let mut row = it.next(Ok(true)).unwrap().unwrap();
    assert_eq!(row.column_count(), 3);
    assert_eq!(raw(row.take()), Some(b"1".to_vec()));
    assert_eq!(raw(row.take()), None);
    assert_eq!(raw(row.take()), Some(b"3".to_vec()));
}

#[test]
fn next_is_null_of_zero_is_true_everywhere() {
    let mut it = executed_positional(&["a", "b"]);
    fill(&mut it, &[Some(b"x"), Some(b"y")]);
    let mut row = it.next(Ok(true)).unwrap().unwrap();
    assert!(row.next_is_null(0));
    row.take();
    assert!(row.next_is_null(0));
    row.take();
    assert!(row.next_is_null(0));
}

#[test]
fn next_is_null_detects_a_null_run() {
    let mut it = executed_positional(&["c0", "c1", "c2", "c3", "c4", "c5"]);
    fill(&mut it, &[Some(b"0"), Some(b"1"), None, None, None, Some(b"5")]);
    let mut row = it.next(Ok(true)).unwrap().unwrap();
    row.take();
    assert!(!row.next_is_null(3));
    row.take();
    assert!(row.next_is_null(3));
    assert!(!row.next_is_null(4));
    assert_eq!(raw(row.take()), None);
}

#[test]
fn column_name_looks_back_one_column() {
    let mut it = executed_positional(&["id", "name", "email"]);
    fill(&mut it, &[Some(b"7"), Some(b"x"), None]);
    let mut row: MysqlRow<'_> = it.next(Ok(true)).unwrap().unwrap();
    assert_eq!(row.column_name(), Some("id"));
    row.take();
    assert_eq!(row.column_name(), Some("id"));
    row.take();
    assert_eq!(row.column_name(), Some("name"));
    row.take();
    assert_eq!(row.column_name(), Some("email"));
}

#[test]
fn column_name_with_metadata_provided_after_binding() {
    let mut it = StatementIterator::new(vec![Some(MysqlType::Long), Some(MysqlType::Blob)], None).unwrap();
    assert!(!it.has_metadata());
    it.executed(Ok(())).unwrap();
    it.provide_metadata(metadata(&["n", "data"])).unwrap();
    assert!(it.has_metadata());
    fill(&mut it, &[Some(b"1"), None]);
    let mut row = it.next(Ok(true)).unwrap().unwrap();
    assert_eq!(row.column_name(), Some("n"));
    row.take();
    row.take();
    assert_eq!(row.column_name(), Some("data"));
}

#[test]
fn column_name_of_a_row_without_columns_is_none() {
    let mut it = executed_positional(&[]);
    let row = it.next(Ok(true)).unwrap().unwrap();
    assert_eq!(row.column_count(), 0);
    assert_eq!(row.column_name(), None);
}

#[test]
fn provided_metadata_of_another_width_is_refused() {
    let mut it = StatementIterator::new(vec![Some(MysqlType::Long)], None).unwrap();
    let r = it.provide_metadata(metadata(&["a", "b"]));
    assert!(matches!(r, Err(QueryError::BindResolution(_))));
    assert!(!it.has_metadata());
    assert_eq!(it.column_count(), 1);
}

#[test]
fn needs_metadata_only_for_unknown_types() {
    assert!(!StatementIterator::needs_metadata(&vec![Some(MysqlType::Long), Some(MysqlType::Blob)]));
    assert!(StatementIterator::needs_metadata(&vec![Some(MysqlType::Long), None]));
    assert!(!StatementIterator::needs_metadata(&vec![]));
}

#[test]
fn unknown_types_are_resolved_from_metadata() {
    let md = StatementMetadata::new(vec![field("a", MysqlType::Date), field("b", MysqlType::Double)]);
    let mut it = StatementIterator::new(vec![Some(MysqlType::Long), None], Some(md)).unwrap();
    it.executed(Ok(())).unwrap();
    fill(&mut it, &[Some(b"1"), Some(b"2")]);
    let mut row = it.next(Ok(true)).unwrap().unwrap();
    assert_eq!(row.take().unwrap().tpe, MysqlType::Long);
    assert_eq!(row.take().unwrap().tpe, MysqlType::Double);
}

#[test]
fn unknown_types_without_metadata_fail_binding() {
    let r = StatementIterator::new(vec![None], None);
    assert!(matches!(r, Err(QueryError::BindResolution(_))));
}

#[test]
fn metadata_of_another_width_fails_binding() {
    let r = StatementIterator::new(vec![Some(MysqlType::Long)], Some(metadata(&["a", "b"])));
    assert!(matches!(r, Err(QueryError::BindResolution(_))));
}

#[test]
fn execution_failure_ends_the_iterator() {
    let mut it = StatementIterator::new(vec![Some(MysqlType::Long)], Some(metadata(&["a"]))).unwrap();
    assert_eq!(it.current_state(), IterState::Created);
    let r = it.executed(Err(QueryError::Execution("gone".to_owned())));
    assert!(matches!(r, Err(QueryError::Execution(m)) if m == "gone"));
    assert_eq!(it.current_state(), IterState::Errored);
    assert!(it.next(Ok(true)).is_none());
}

#[test]
fn exhaustion_and_errors_absorb() {
    let mut it = executed_positional(&["a"]);
    assert!(it.next(Ok(false)).is_none());
    assert_eq!(it.current_state(), IterState::Exhausted);
    assert!(it.next(Ok(true)).is_none());

    let mut it = executed_positional(&["a"]);
    let r = it.next(Err(QueryError::Fetch("lost".to_owned())));
    assert!(matches!(r, Some(Err(QueryError::Fetch(m))) if m == "lost"));
    assert_eq!(it.current_state(), IterState::Errored);
    assert!(it.next(Ok(true)).is_none());
}

fn named(names: &[&str]) -> NamedStatementIterator {
    let mut it = NamedStatementIterator::new(metadata(names));
    it.executed(Ok(())).unwrap();
    it
}

#[test]
fn index_of_then_get_raw_value_matches_positional_read() {
    let mut it = named(&["id", "name", "email"]);
    fill_named(&mut it, &[Some(b"7"), Some(b"ann"), None]);
    let row: NamedMysqlRow<'_> = it.next(Ok(true)).unwrap().unwrap();
    let idx = row.index_of("name").unwrap();
    assert_eq!(idx, 1);
    assert_eq!(raw(row.get_raw_value(idx)), Some(b"ann".to_vec()));
    assert_eq!(raw(row.get_raw_value(row.index_of("email").unwrap())), None);
    assert_eq!(raw(row.get_raw_value(3)), None);

    let mut it = executed_positional(&["id", "name", "email"]);
    fill(&mut it, &[Some(b"7"), Some(b"ann"), None]);
    let mut pos = it.next(Ok(true)).unwrap().unwrap();
    pos.take();
    assert_eq!(raw(pos.take()), Some(b"ann".to_vec()));
}

#[test]
fn index_of_is_exact_and_takes_the_first_duplicate() {
    let mut it = named(&["Id", "id", "id"]);
    let row = it.next(Ok(true)).unwrap().unwrap();
    assert_eq!(row.index_of("id"), Some(1));
    assert_eq!(row.index_of("ID"), None);
    assert_eq!(row.index_of("Id"), Some(0));
}

#[test]
fn absent_name_is_not_found_on_any_row() {
    let mut it = named(&["a", "b"]);
    for data in [[Some(&b"1"[..]), None], [None, Some(&b"2"[..])]] {
        fill_named(&mut it, &data);
        let row = it.next(Ok(true)).unwrap().unwrap();
        assert_eq!(row.index_of("c"), None);
    }
    assert!(it.next(Ok(false)).is_none());
}

fn fold_rows(rows: &[QueryResult<Option<&[u8]>>]) -> QueryResult<Vec<Vec<u8>>> {
    let mut it = executed_positional(&["v"]);
    let mut fold = RowFold::new();
    let mut k = 0;
    while !fold.is_finished() {
        let fetched = match rows.get(k) {
            Some(Ok(v)) => {
                fill(&mut it, &[*v]);
                Ok(true)
            }
            Some(Err(e)) => Err(e.clone()),
            None => Ok(false),
        };
        k += 1;
        it.map_step(fetched, &mut fold, |mut row: MysqlRow<'_>| {
            raw(row.take()).ok_or(QueryError::Transform("null".to_owned()))
        });
    }
    assert!(k <= rows.len() + 1);
    fold.finish()
}

#[test]
fn transform_step_passes_ends_and_errors_through() {
    let f = |x: u8| -> QueryResult<u8> { Ok(x + 1) };
    assert!(transform_step(None, f).is_none());
    assert!(matches!(transform_step(Some(Ok(1u8)), f), Some(Ok(2))));
    let e = transform_step(Some(Err::<u8, _>(QueryError::Fetch("x".to_owned()))), f);
    assert!(matches!(e, Some(Err(QueryError::Fetch(_)))));
}

#[test]
fn named_fold_collects_by_name() {
    let mut it = named(&["a", "b"]);
    let mut fold = RowFold::new();
    let rows: [[Option<&[u8]>; 2]; 2] = [[Some(b"1"), Some(b"x")], [Some(b"2"), Some(b"y")]];
    let mut k = 0;
    while !fold.is_finished() {
        let fetched = if k < rows.len() {
            fill_named(&mut it, &rows[k]);
            Ok(true)
        } else {
            Ok(false)
        };
        k += 1;
        it.map_step(fetched, &mut fold, |row: NamedMysqlRow<'_>| {
            let idx = row.index_of("b").ok_or(QueryError::Transform("no b".to_owned()))?;
            raw(row.get_raw_value(idx)).ok_or(QueryError::Transform("null".to_owned()))
        });
    }
    assert_eq!(fold.finish().unwrap(), vec![b"x".to_vec(), b"y".to_vec()]);
    assert_eq!(it.current_state(), IterState::Exhausted);
}

#[test]
fn fold_over_three_rows_keeps_fetch_order() {
    let r = fold_rows(&[Ok(Some(b"a")), Ok(Some(b"b")), Ok(Some(b"c"))]).unwrap();
    assert_eq!(r, vec![b"a".to_vec(), b"b".to_vec(), b"c".to_vec()]);
}

#[test]
fn fold_over_no_rows_is_empty() {
    assert_eq!(fold_rows(&[]).unwrap().len(), 0);
}

#[test]
fn fold_stops_at_a_failed_fetch() {
    let rows: [QueryResult<Option<&[u8]>>; 3] =
        [Ok(Some(b"a")), Err(QueryError::Fetch("second".to_owned())), Ok(Some(b"c"))];
    let r = fold_rows(&rows);
    assert!(matches!(r, Err(QueryError::Fetch(m)) if m == "second"));
}

#[test]
fn fold_stops_at_a_failed_transform() {
    let r = fold_rows(&[Ok(Some(b"a")), Ok(None), Ok(Some(b"c"))]);
    assert!(matches!(r, Err(QueryError::Transform(_))));
}

#[test]
fn finished_fold_ignores_later_steps() {
    let mut fold: RowFold<u8> = RowFold::new();
    assert!(!fold.is_finished());
    fold.push(Some(Ok(1)));
    fold.push(None);
    assert!(fold.is_finished());
    fold.push(Some(Ok(2)));
    fold.push(Some(Err(QueryError::Fetch("late".to_owned()))));
    assert_eq!(fold.finish().unwrap(), vec![1]);
}

#[test]
fn named_buffer_types_follow_metadata() {
    let md = StatementMetadata::new(vec![field("a", MysqlType::Blob), field("b", MysqlType::Tiny)]);
    let mut it = NamedStatementIterator::new(md);
    it.executed(Ok(())).unwrap();
    fill_named(&mut it, &[Some(b"z"), Some(b"1")]);
    let row = it.next(Ok(true)).unwrap().unwrap();
    assert_eq!(row.get_raw_value(1).unwrap().tpe, MysqlType::Tiny);
    assert_eq!(row.get_raw_value(0).unwrap().tpe, MysqlType::Blob);
}
