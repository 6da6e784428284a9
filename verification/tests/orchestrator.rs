use grafana_migrate::kind::Kind;
use grafana_migrate::orchestrator::{
    fanout, plan_for, Command, Event, Fanout, Plan, Run, Step, Tally,
};

fn tally(launched: usize, finished: usize, failed: usize) -> Tally {
    Tally { launched, finished, failed }
}

fn drive(plan: Plan, sizes: &[usize]) -> Vec<Command> {
    let mut run = Run::start(plan);
    let mut commands = Vec::new();
    let mut sizes = sizes.iter();
    loop {
        let command = run.command();
        commands.push(command);
        run = match command {
            Command::Prepare => run.advance(Event::Prepared(true)),
            Command::Launch(_) => run.advance(Event::Launched(*sizes.next().unwrap())),
            Command::Wait => run.advance(Event::Finished(true)),
            Command::Stop => return commands,
        };
    }
}

#[test]
fn export_runs_dashboards_then_folders_then_datasources() {
    assert_eq!(
        drive(Plan::Export, &[1, 2, 0]),
        vec![
            Command::Prepare,
            Command::Launch(Step::Export(Kind::Dashboard)),
            Command::Wait,
            Command::Launch(Step::Export(Kind::Folder)),
            Command::Wait,
            Command::Wait,
            Command::Launch(Step::Export(Kind::Datasource)),
            Command::Stop,
        ]
    );
}

#[test]
fn import_runs_folders_then_dashboards_then_datasources() {
    assert_eq!(
        drive(Plan::Import, &[0, 0, 0]),
        vec![
            Command::Launch(Step::Import(Kind::Folder)),
            Command::Launch(Step::Import(Kind::Dashboard)),
            Command::Launch(Step::Import(Kind::Datasource)),
            Command::Stop,
        ]
    );
}

#[test]
fn migration_exports_before_it_imports() {
    assert_eq!(
        drive(Plan::Migrate, &[0, 0, 0, 0, 0, 0]),
        vec![
            Command::Prepare,
            Command::Launch(Step::Export(Kind::Dashboard)),
            Command::Launch(Step::Export(Kind::Folder)),
            Command::Launch(Step::Export(Kind::Datasource)),
            Command::Launch(Step::Import(Kind::Folder)),
            Command::Launch(Step::Import(Kind::Dashboard)),
            Command::Launch(Step::Import(Kind::Datasource)),
            Command::Stop,
        ]
    );
}

#[test]
fn dashboards_wait_for_every_folder() {
    let mut run = Run::start(Plan::Import);
    let mut log: Vec<String> = Vec::new();
    run = run.advance(Event::Launched(3));
    for i in 0..3 {
        assert_eq!(run.step(), Step::Import(Kind::Folder));
        assert_eq!(run.command(), Command::Wait);
        run = run.advance(Event::Finished(i != 1));
        log.push(format!("folder {} finished", i));
    }
    assert_eq!(run.step(), Step::Import(Kind::Dashboard));
    assert_eq!(run.command(), Command::Launch(Step::Import(Kind::Dashboard)));
    log.push("dashboards launched".to_string());
    assert_eq!(
        log,
        vec!["folder 0 finished", "folder 1 finished", "folder 2 finished", "dashboards launched"]
    );
    assert_eq!(run.tallies(), &vec![tally(3, 3, 1)]);
}

#[test]
fn a_step_is_not_left_while_tasks_are_out() {
    let mut run = Run::start(Plan::Import).advance(Event::Launched(2));
    run = run.advance(Event::Finished(true));
    assert_eq!(run.step(), Step::Import(Kind::Folder));
    run = run.advance(Event::Launched(5));
    run = run.advance(Event::Prepared(true));
    assert_eq!(run.step(), Step::Import(Kind::Folder));
    assert_eq!(run.command(), Command::Wait);
    run = run.advance(Event::Finished(false));
    assert_eq!(run.step(), Step::Import(Kind::Dashboard));
    assert_eq!(run.tallies(), &vec![tally(2, 2, 1)]);
}

#[test]
fn failures_do_not_stop_the_run() {
    let mut run = Run::start(Plan::Export).advance(Event::Prepared(true));
    for size in [2usize, 1, 3] {
        run = run.advance(Event::Launched(size));
        for _ in 0..size {
            run = run.advance(Event::Finished(false));
        }
    }
    assert_eq!(run.step(), Step::Done);
    assert_eq!(run.command(), Command::Stop);
    assert_eq!(
        run.tallies(),
        &vec![tally(0, 0, 0), tally(2, 2, 2), tally(1, 1, 1), tally(3, 3, 3)]
    );
}

#[test]
fn export_is_aborted_when_the_directories_cannot_be_made() {
    let mut run = Run::start(Plan::Migrate);
    assert_eq!(run.command(), Command::Prepare);
    run = run.advance(Event::Prepared(false));
    assert_eq!(run.step(), Step::Aborted);
    assert_eq!(run.command(), Command::Stop);
    run = run.advance(Event::Prepared(true));
    run = run.advance(Event::Launched(1));
    assert_eq!(run.step(), Step::Aborted);
    assert!(run.tallies().is_empty());
}

#[test]
fn events_that_are_not_asked_for_change_nothing() {
    let mut run = Run::start(Plan::Export);
    run = run.advance(Event::Launched(4));
    run = run.advance(Event::Finished(true));
    assert_eq!(run.step(), Step::Prepare);
    assert!(run.tallies().is_empty());
    run = run.advance(Event::Prepared(true));
    run = run.advance(Event::Finished(true));
    run = run.advance(Event::Prepared(false));
    assert_eq!(run.command(), Command::Launch(Step::Export(Kind::Dashboard)));
    let mut done = Run::start(Plan::Import);
    for _ in 0..3 {
        done = done.advance(Event::Launched(0));
    }
    assert_eq!(done.step(), Step::Done);
    done = done.advance(Event::Launched(1));
    done = done.advance(Event::Finished(true));
    assert_eq!(done.step(), Step::Done);
    assert_eq!(done.tallies().len(), 3);
}

#[test]
fn datasources_run_one_after_the_other() {
    assert_eq!(fanout(Step::Export(Kind::Datasource)), Fanout::Sequential);
    assert_eq!(fanout(Step::Import(Kind::Datasource)), Fanout::Sequential);
    assert_eq!(fanout(Step::Export(Kind::Folder)), Fanout::Concurrent);
    assert_eq!(fanout(Step::Export(Kind::Dashboard)), Fanout::Concurrent);
    assert_eq!(fanout(Step::Import(Kind::Folder)), Fanout::Concurrent);
    assert_eq!(fanout(Step::Import(Kind::Dashboard)), Fanout::Concurrent);
    assert_eq!(fanout(Step::Prepare), Fanout::Concurrent);
}

#[test]
fn plan_for_the_argument() {
    assert_eq!(plan_for(Some("export")), Some(Plan::Export));
    assert_eq!(plan_for(Some("import")), Some(Plan::Import));
    assert_eq!(plan_for(None), Some(Plan::Migrate));
    assert_eq!(plan_for(Some("")), None);
    assert_eq!(plan_for(Some("Export")), None);
    assert_eq!(plan_for(Some("exports")), None);
    assert_eq!(plan_for(Some("migrate")), None);
}
