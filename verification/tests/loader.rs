use ogcapi_poc::loader::{Batch, Phase, Reload, Statement};

struct Store {
    committed: Vec<usize>,
    pending: Option<Vec<usize>>,
}

fn reload(store: &mut Store, rows: &Vec<usize>, size: usize, fail_at: Option<usize>) -> (bool, Vec<Statement>) {
    let mut run = Reload::start(rows.len(), size);
    let mut log = Vec::new();
    while let Some(statement) = run.statement() {
        let succeeded = fail_at != Some(log.len());
        log.push(statement);
        match statement {
            Statement::Begin => {
                if succeeded {
                    store.pending = Some(store.committed.clone());
                }
            }
            Statement::Clear => {
                if succeeded {
                    store.pending = Some(Vec::new());
                }
            }
            Statement::Insert(batch) => {
                if succeeded {
                    store.pending.as_mut().unwrap().extend_from_slice(&rows[batch.start..batch.end]);
                }
            }
            Statement::Commit => {
                let seen = store.pending.take().unwrap();
                if succeeded {
                    store.committed = seen;
                }
            }
            Statement::Rollback => {
                store.pending = None;
            }
        }
        run = run.advance(succeeded);
    }
    (run.outcome().unwrap(), log)
}

#[test]
fn rows_are_inserted_in_batches_of_fixed_size() {
    let rows: Vec<usize> = (0..25000).collect();
    let mut store = Store { committed: vec![7, 8, 9], pending: None };
    let (committed, log) = reload(&mut store, &rows, 10000, None);
    assert!(committed);
    assert_eq!(
        log,
        vec![
            Statement::Begin,
            Statement::Clear,
            Statement::Insert(Batch { start: 0, end: 10000 }),
            Statement::Insert(Batch { start: 10000, end: 20000 }),
            Statement::Insert(Batch { start: 20000, end: 25000 }),
            Statement::Commit,
        ]
    );
    assert_eq!(store.committed, rows);
    assert!(store.pending.is_none());
}

#[test]
fn full_batches_leave_no_empty_one() {
    let rows: Vec<usize> = (0..20).collect();
    let mut store = Store { committed: vec![], pending: None };
    let (committed, log) = reload(&mut store, &rows, 10, None);
    assert!(committed);
    assert_eq!(log.len(), 5);
    assert_eq!(log[3], Statement::Insert(Batch { start: 10, end: 20 }));
    assert_eq!(store.committed, rows);
}

#[test]
fn an_empty_manifest_clears_the_collection() {
    let mut store = Store { committed: vec![1, 2], pending: None };
    let (committed, log) = reload(&mut store, &vec![], 10, None);
    assert!(committed);
    assert_eq!(log, vec![Statement::Begin, Statement::Clear, Statement::Commit]);
    assert!(store.committed.is_empty());
}

#[test]
fn a_failed_batch_leaves_the_prior_rows() {
    let rows: Vec<usize> = (0..25).collect();
    for fail_at in 0..6 {
        let mut store = Store { committed: vec![7, 8, 9], pending: None };
        let (committed, log) = reload(&mut store, &rows, 10, Some(fail_at));
        assert!(!committed);
        assert_eq!(store.committed, vec![7, 8, 9]);
        assert_eq!(store.committed.len(), 3);
        assert!(store.pending.is_none());
        assert!(!log[..fail_at].contains(&Statement::Commit));
        if fail_at == 0 {
            assert_eq!(log, vec![Statement::Begin]);
        } else if fail_at < 5 {
            assert_eq!(log.len(), fail_at + 2);
            assert_eq!(log[fail_at + 1], Statement::Rollback);
        } else {
            assert_eq!(log[5], Statement::Commit);
            assert_eq!(log.len(), 6);
        }
    }
}

#[test]
fn a_reload_that_has_ended_stays_ended() {
    let done = Reload { total: 3, size: 2, phase: Phase::Done(true) };
    assert_eq!(done.statement(), None);
    assert_eq!(done.advance(false), done);
    assert_eq!(done.outcome(), Some(true));
    assert_eq!(Reload::start(3, 2).outcome(), None);
    let failed = Reload { total: 3, size: 2, phase: Phase::Rollback }.advance(true);
    assert_eq!(failed.outcome(), Some(false));
}
