use runtime_context::spawner::{BasicSpawner, JoinHandle, Spawner, Task, ThreadPoolSpawner};

#[test]
fn basic_spawn_delegates_unchanged() {
    let s = BasicSpawner { scheduler: 7 };
    let task = Task { id: 3 };
    let direct = s.spawn(task);
    let via_facade = Spawner::Basic(s).spawn(task);
    assert_eq!(via_facade, direct);
    assert_eq!(via_facade, JoinHandle { task: 3, scheduler: 7 });
}

#[test]
fn thread_pool_spawn_delegates_unchanged() {
    let s = ThreadPoolSpawner { scheduler: 11 };
    let task = Task { id: 4 };
    let direct = s.spawn(task);
    let via_facade = Spawner::ThreadPool(s).spawn(task);
    assert_eq!(via_facade, direct);
    assert_eq!(via_facade, JoinHandle { task: 4, scheduler: 11 });
}

#[test]
fn shell_has_no_executor() {
    assert!(!Spawner::Shell.has_executor());
}

#[test]
fn configured_variants_have_an_executor() {
    assert!(Spawner::Basic(BasicSpawner { scheduler: 1 }).has_executor());
    assert!(Spawner::ThreadPool(ThreadPoolSpawner { scheduler: 2 }).has_executor());
}

#[test]
fn cloned_spawner_keeps_its_variant() {
    let sp = Spawner::Basic(BasicSpawner { scheduler: 7 });
    let cloned = sp.clone();
    let task = Task { id: 9 };
    assert!(cloned.has_executor());
    assert_eq!(cloned.spawn(task), sp.spawn(task));
}
