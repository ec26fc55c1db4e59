use glimmerkit_build::compilation::{Build, Event, Refusal, Stage, Step};
use glimmerkit_build::package::{Occupant, Package, PathError};

fn package() -> Package {
    Package::new("/repo".to_string(), "packages/a".to_string())
}

fn walked(build: Build, files: &[&str]) -> (Build, Step) {
    let (build, step) = build.advance(Event::Probed(Occupant::Nothing));
    assert!(matches!(step, Step::Walk { .. }));
    build.advance(Event::Walked(files.iter().map(|file| file.to_string()).collect()))
}

fn compiled(build: Build, content: &[u8], output: &[u8]) -> (Build, Step) {
    let (build, step) = build.advance(Event::Made);
    assert!(matches!(step, Step::Read { .. }));
    let (build, step) = build.advance(Event::Content(content.to_vec()));
    assert!(matches!(step, Step::Compile { .. }));
    let (build, step) = build.advance(Event::Compiled(output.to_vec()));
    assert!(matches!(step, Step::Write { .. }));
    build.advance(Event::Written)
}

#[test]
fn build_begins_by_probing_the_output_directory() {
    let (build, step) = package().vanilla();
    assert_eq!(step, Step::Probe { path: "/repo/packages/a/dist".to_string() });
    assert_eq!(build.stage(), Stage::Probing);
    assert_eq!(build.package().pkg_root(), "packages/a");
}

#[test]
fn build_clears_a_directory_left_by_an_earlier_run() {
    let (build, _) = package().vanilla();
    let (build, step) = build.advance(Event::Probed(Occupant::Directory));
    assert_eq!(step, Step::Clear { path: "/repo/packages/a/dist".to_string() });
    assert_eq!(build.stage(), Stage::Clearing);
    let (build, step) = build.advance(Event::Cleared);
    assert_eq!(
        step,
        Step::Walk { root: "/repo/packages/a".to_string(), pattern: "**/*.ts".to_string() }
    );
    assert_eq!(build.stage(), Stage::Walking);
}

#[test]
fn build_walks_at_once_where_nothing_stands() {
    let (build, _) = package().vanilla();
    let (build, step) = build.advance(Event::Probed(Occupant::Nothing));
    assert_eq!(
        step,
        Step::Walk { root: "/repo/packages/a".to_string(), pattern: "**/*.ts".to_string() }
    );
    assert_eq!(build.stage(), Stage::Walking);
}

#[test]
fn build_refuses_an_output_directory_that_is_none() {
    let (build, _) = package().vanilla();
    let (build, step) = build.advance(Event::Probed(Occupant::Other));
    assert_eq!(step, Step::Refuse { refusal: Refusal::Occupied });
    assert_eq!(build.stage(), Stage::Refused);
    assert_eq!(build.into_stats().len(), 0);
}

#[test]
fn build_takes_one_source_through_its_four_steps() {
    let (build, _) = package().vanilla();
    let (build, step) = walked(build, &["/repo/packages/a/src/a.ts"]);
    assert_eq!(step, Step::MakeDirs { path: "/repo/packages/a/dist/src".to_string() });
    assert_eq!(build.stage(), Stage::Preparing);
    let (build, step) = build.advance(Event::Made);
    assert_eq!(step, Step::Read { path: "/repo/packages/a/src/a.ts".to_string() });
    assert_eq!(build.stage(), Stage::Reading);
    let (build, step) = build.advance(Event::Content(b"let a = 1;".to_vec()));
    assert_eq!(
        step,
        Step::Compile {
            name: "/repo/packages/a/src/a.ts".to_string(),
            text: "let a = 1;".to_string(),
        }
    );
    assert_eq!(build.stage(), Stage::Compiling);
    let (build, step) = build.advance(Event::Compiled(b"let a = 1;\n".to_vec()));
    assert_eq!(
        step,
        Step::Write {
            path: "/repo/packages/a/dist/src/a.js".to_string(),
            content: b"let a = 1;\n".to_vec(),
        }
    );
    assert_eq!(build.stage(), Stage::Writing);
    let (build, step) = build.advance(Event::Written);
    assert_eq!(step, Step::Finish);
    assert_eq!(build.stage(), Stage::Finished);
    let stats = build.into_stats();
    assert_eq!(stats.len(), 1);
    assert_eq!(stats[0].file(), "/repo/packages/a/src/a.ts");
}

#[test]
fn build_reads_content_that_is_not_utf8() {
    let (build, _) = package().vanilla();
    let (build, _) = walked(build, &["/repo/packages/a/a.ts"]);
    let (build, _) = build.advance(Event::Made);
    let (_, step) = build.advance(Event::Content(b"let a = '\xff';".to_vec()));
    assert_eq!(
        step,
        Step::Compile {
            name: "/repo/packages/a/a.ts".to_string(),
            text: "let a = '\u{fffd}';".to_string(),
        }
    );
}

#[test]
fn build_compiles_the_sources_in_the_listed_order() {
    let (build, _) = package().vanilla();
    let (build, step) = walked(build, &["/repo/packages/a/b.ts", "/repo/packages/a/src/a.ts"]);
    assert_eq!(step, Step::MakeDirs { path: "/repo/packages/a/dist".to_string() });
    let (build, step) = compiled(build, b"b", b"B");
    assert_eq!(step, Step::MakeDirs { path: "/repo/packages/a/dist/src".to_string() });
    let (build, step) = compiled(build, b"a", b"A");
    assert_eq!(step, Step::Finish);
    assert_eq!(build.stage(), Stage::Finished);
    let stats = build.into_stats();
    assert_eq!(stats.len(), 2);
    assert_eq!(stats[0].file(), "/repo/packages/a/b.ts");
    assert_eq!(stats[1].file(), "/repo/packages/a/src/a.ts");
}

#[test]
fn build_without_sources_finishes_at_once() {
    let (build, _) = package().vanilla();
    let (build, step) = walked(build, &[]);
    assert_eq!(step, Step::Finish);
    assert_eq!(build.stage(), Stage::Finished);
    assert_eq!(build.into_stats().len(), 0);
}

#[test]
fn build_keeps_no_record_of_a_source_that_was_not_reported_written() {
    let (build, _) = package().vanilla();
    let (build, _) = walked(build, &["/repo/packages/a/a.ts", "/repo/packages/a/b.ts"]);
    let (build, _) = compiled(build, b"a", b"A");
    let (build, _) = build.advance(Event::Made);
    let (build, _) = build.advance(Event::Content(b"b".to_vec()));
    let (build, step) = build.advance(Event::Compiled(b"B".to_vec()));
    assert!(matches!(step, Step::Write { .. }));
    let stats = build.into_stats();
    assert_eq!(stats.len(), 1);
    assert_eq!(stats[0].file(), "/repo/packages/a/a.ts");
}

#[test]
fn build_refuses_a_source_that_has_no_place() {
    let (build, _) = package().vanilla();
    let (build, step) = walked(build, &["elsewhere/a.ts"]);
    assert_eq!(step, Step::Refuse { refusal: Refusal::Misplaced(PathError::Unrelated) });
    assert_eq!(build.stage(), Stage::Refused);
}

#[test]
fn build_refuses_a_later_source_that_has_no_place() {
    let (build, _) = Package::new("repo".to_string(), "a".to_string()).vanilla();
    let (build, step) = walked(build, &["repo/a/x.ts", "/abs/y.ts"]);
    assert_eq!(step, Step::MakeDirs { path: "repo/a/dist".to_string() });
    let (build, step) = compiled(build, b"x", b"X");
    assert_eq!(step, Step::Refuse { refusal: Refusal::Misplaced(PathError::NotPortable) });
    let stats = build.into_stats();
    assert_eq!(stats.len(), 1);
    assert_eq!(stats[0].file(), "repo/a/x.ts");
}

#[test]
fn build_refuses_a_report_out_of_turn() {
    let (build, _) = package().vanilla();
    let (build, step) = build.advance(Event::Written);
    assert_eq!(step, Step::Refuse { refusal: Refusal::OutOfTurn });
    assert_eq!(build.stage(), Stage::Refused);
    let (_, step) = build.advance(Event::Probed(Occupant::Nothing));
    assert_eq!(step, Step::Refuse { refusal: Refusal::OutOfTurn });

    let (build, _) = package().vanilla();
    let (build, _) = build.advance(Event::Probed(Occupant::Directory));
    let (_, step) = build.advance(Event::Walked(vec![]));
    assert_eq!(step, Step::Refuse { refusal: Refusal::OutOfTurn });

    let (build, _) = package().vanilla();
    let (build, _) = walked(build, &["/repo/packages/a/a.ts"]);
    let (_, step) = build.advance(Event::Content(vec![]));
    assert_eq!(step, Step::Refuse { refusal: Refusal::OutOfTurn });

    let (build, _) = package().vanilla();
    let (build, _) = walked(build, &["/repo/packages/a/a.ts"]);
    let (build, _) = build.advance(Event::Made);
    let (_, step) = build.advance(Event::Compiled(vec![]));
    assert_eq!(step, Step::Refuse { refusal: Refusal::OutOfTurn });
}

#[test]
fn build_refuses_any_report_once_it_is_finished() {
    let (build, _) = package().vanilla();
    let (build, _) = walked(build, &["/repo/packages/a/a.ts"]);
    let (build, step) = compiled(build, b"a", b"A");
    assert_eq!(step, Step::Finish);
    let (build, step) = build.advance(Event::Written);
    assert_eq!(step, Step::Refuse { refusal: Refusal::OutOfTurn });
    assert_eq!(build.stage(), Stage::Refused);
    assert_eq!(build.into_stats().len(), 1);
}

#[test]
fn build_is_the_same_the_second_time() {
    let run = || {
        let (build, first) = package().vanilla();
        let (build, second) = build.advance(Event::Probed(Occupant::Directory));
        let (build, third) = build.advance(Event::Cleared);
        let (build, fourth) = build.advance(Event::Walked(vec!["/repo/packages/a/a.ts".to_string()]));
        let (build, fifth) = build.advance(Event::Made);
        let (build, sixth) = build.advance(Event::Content(b"let a: number = 1;".to_vec()));
        let (_, seventh) = build.advance(Event::Compiled(b"let a = 1;".to_vec()));
        vec![first, second, third, fourth, fifth, sixth, seventh]
    };
    assert_eq!(run(), run());
}
