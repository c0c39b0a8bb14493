use ugly_global::CellError;
use ugly_global::Global;
use ugly_global::LocalCell;
use ugly_global::OneShotLatch;

#[derive(Clone, Copy, Debug, PartialEq, Eq)]
struct Point {
    x: u64,
    y: u64,
}

#[test]
fn latch_starts_empty() {
    let latch: OneShotLatch<u64> = OneShotLatch::new();
    assert!(latch.get().is_none());
}

#[test]
fn latch_commits_exactly_once() {
    let mut latch = OneShotLatch::new();
    assert_eq!(latch.init(7u64), Ok(()));
    assert_eq!(latch.get(), Some(&7));
    assert_eq!(latch.init(9u64), Err(CellError::AlreadyInitialized));
    assert_eq!(latch.get(), Some(&7));
}

#[test]
fn latch_get_mut_reaches_the_value() {
    let mut latch = OneShotLatch::new();
    assert!(latch.get_mut().is_none());
    latch.init(3u64).unwrap();
    if let Some(v) = latch.get_mut() {
        *v += 1;
    }
    assert_eq!(latch.get(), Some(&4));
}

#[test]
fn local_cell_rejects_premature_fetch() {
    let mut cell: LocalCell<u64> = LocalCell::new();
    assert!(matches!(cell.fetch(), Err(CellError::Uninitialized)));
    // A rejected fetch leaves the cell empty; asking again changes nothing.
    assert!(matches!(cell.fetch(), Err(CellError::Uninitialized)));
}

#[test]
fn local_cell_single_init() {
    let mut cell = LocalCell::new();
    assert_eq!(cell.init(5u64), Ok(()));
    assert_eq!(cell.init(6u64), Err(CellError::AlreadyInitialized));
    assert_eq!(cell.fetch().map(|v| *v), Ok(5));
}

#[test]
fn local_cell_mutation_is_kept() {
    let mut cell = LocalCell::new();
    cell.init(Point { x: 0, y: 0 }).unwrap();
    {
        let p = cell.fetch().unwrap();
        p.x += 1;
        p.y += 2;
    }
    assert_eq!(cell.fetch().map(|p| *p), Ok(Point { x: 1, y: 2 }));
}

#[test]
fn local_cells_are_independent() {
    // Two contexts, each owning a cell of the same shape: mutating one
    // never affects the other.
    let mut first = LocalCell::new();
    let mut second = LocalCell::new();
    first.init(Point { x: 0, y: 0 }).unwrap();
    second.init(Point { x: 0, y: 0 }).unwrap();
    {
        let p = first.fetch().unwrap();
        p.x += 10;
        p.y += 20;
    }
    assert_eq!(first.fetch().map(|p| *p), Ok(Point { x: 10, y: 20 }));
    assert_eq!(second.fetch().map(|p| *p), Ok(Point { x: 0, y: 0 }));
}

#[test]
fn global_rejects_premature_fetch() {
    let cell: Global<u64> = Global::new();
    assert!(matches!(cell.fetch().err(), Some(CellError::Uninitialized)));
    assert!(matches!(cell.fetch().err(), Some(CellError::Uninitialized)));
}

#[test]
fn global_single_init() {
    let cell = Global::new();
    assert_eq!(cell.init(41u64), Ok(()));
    assert_eq!(cell.init(42u64), Err(CellError::AlreadyInitialized));
    let guard = cell.fetch().ok().unwrap();
    assert_eq!(*guard.read(), 41);
}

#[test]
fn global_guard_reads_what_it_wrote() {
    let cell = Global::new();
    cell.init(1u64).unwrap();
    {
        let mut guard = cell.fetch().ok().unwrap();
        let v = *guard.read();
        guard.write(v + 10);
        assert_eq!(*guard.read(), 11);
    }
    let guard = cell.fetch().ok().unwrap();
    assert_eq!(*guard.read(), 11);
}

fn bump_and_bail(cell: &Global<u64>) -> bool {
    let mut guard = match cell.fetch() {
        Ok(g) => g,
        Err(_) => return false,
    };
    guard.write(99);
    if *guard.read() == 99 {
        // Early exit while the guard is alive: release must still happen.
        return true;
    }
    false
}

#[test]
fn global_guard_released_on_early_return() {
    let cell = Global::new();
    cell.init(0u64).unwrap();
    assert!(bump_and_bail(&cell));
    // If the early return had leaked the guard, this fetch would block
    // forever; instead the cell is fetchable again at once.
    let guard = cell.fetch().ok().unwrap();
    assert_eq!(*guard.read(), 99);
}

#[test]
fn global_guard_mutates_in_place() {
    let cell = Global::new();
    cell.init(Point { x: 0, y: 0 }).unwrap();
    {
        let mut guard = cell.fetch().ok().unwrap();
        let p = guard.borrow_mut();
        p.x += 1;
        p.y += 2;
    }
    let guard = cell.fetch().ok().unwrap();
    assert_eq!(*guard.read(), Point { x: 1, y: 2 });
}

#[test]
fn guarded_increments_all_count() {
    let cell = Global::new();
    cell.init(0u64).unwrap();
    for _ in 0..8 {
        let mut guard = cell.fetch().ok().unwrap();
        let v = *guard.read();
        guard.write(v + 1);
    }
    let guard = cell.fetch().ok().unwrap();
    assert_eq!(*guard.read(), 8);
}

fn visit(cell: &Global<Point>) -> u64 {
    let mut guard = cell.fetch().ok().unwrap();
    let p = *guard.read();
    let next = Point { x: p.x + 1, y: p.y + 2 };
    guard.write(next);
    next.x + next.y
}

#[test]
fn global_scenario_three_serialized_visits() {
    let cell = Global::new();
    cell.init(Point { x: 0, y: 0 }).unwrap();
    let mut results = vec![visit(&cell), visit(&cell), visit(&cell)];
    results.sort();
    assert_eq!(results, vec![3, 6, 9]);
    let guard = cell.fetch().ok().unwrap();
    assert_eq!(*guard.read(), Point { x: 3, y: 6 });
}

#[test]
fn error_descriptions_name_the_condition() {
    assert_eq!(CellError::AlreadyInitialized.describe(), "cell already initialized");
    assert_eq!(CellError::Uninitialized.describe(), "cell not yet initialized");
    assert_eq!(CellError::Corrupted.describe(), "cell access left corrupted");
}
