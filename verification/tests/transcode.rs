use oms::commands::transcode::{parts_to_transcode, split_output_path, split_start, SplitStart};
use oms::commands::transcode::option::TranscodeOption;
use oms::commands::transcode::{build_cmd, file_step, final_output_path, finished_part_path,
    has_double_extension, is_split_leftover, is_split_part, needs_transcoding, part_output_path,
    parts_list, single_outcome, split_outcome, takes_single_file, takes_split_file, target_of,
    usage, FileStep, Outcome, TranscodePlan};
use oms::commands::{list_target, ErrorKind, PathKind, Target};

fn s(x: &str) -> String {
    x.to_string()
}

#[test]
fn transcode_option_defaults() {
    let o = TranscodeOption::new();
    assert!(o.thread >= 1);
    assert!(!o.delete && !o.keep_smallest && !o.force && !o.check);
    assert_eq!(o.split, 0);
    assert_eq!(o.get_output(&s("avi")), "mp4");
}

#[test]
fn output_after_set_law() {
    let mut o = TranscodeOption::new();
    assert!(o.set_output(&s("flv>WEBM,avi>mp4,mkv")).is_ok());
    assert_eq!(o.get_output(&s("FLV")), "webm");
    assert_eq!(o.get_output(&s("avi")), "mp4");
    assert_eq!(o.get_output(&s("mov")), "mkv");
    let mut p = TranscodeOption::new();
    let e = p.set_output(&s("avi>mkv,flv>exe,mov>webm")).unwrap_err();
    assert_eq!(e.kind, ErrorKind::NotFound);
    assert_eq!(e.to_string(), "Invalid value for output");
    // Items before the bad one stay applied, those after do not.
    assert_eq!(p.get_output(&s("avi")), "mkv");
    assert_eq!(p.get_output(&s("mov")), "mp4");
}

#[test]
fn transcode_setters() {
    let mut o = TranscodeOption::new();
    assert!(o.set_split(&s("")).is_ok());
    assert_eq!(o.split, 10);
    assert!(o.set_split(&s("30")).is_ok());
    assert_eq!(o.split, 30);
    assert_eq!(o.set_split(&s("x")).unwrap_err().to_string(), "Invalid value for split");
    assert_eq!(o.set_thread(&s("x")).unwrap_err().to_string(), "Invalid value for thread");
    assert!(o.set_thread(&s("3")).is_ok());
    assert_eq!(o.thread, 3);
    assert!(o.extensions_from(&s("AVI")).is_ok());
    assert!(o.has_extension(&s("avi")));
    assert!(!o.has_extension(&s("mkv")));
    assert!(o.set_list(Some(vec![s(" a.mkv "), s(""), s("b.avi")])).is_ok());
    assert_eq!(o.list, vec![s("a.mkv"), s("b.avi")]);
    assert_eq!(o.set_list(None).unwrap_err().to_string(), "Unknown value for list");
    assert!(o.set_skiplist(Some(vec![s("/x/c.mkv "), s("")])).is_ok());
    assert_eq!(o.skip_list, vec![s("c.mkv")]);
    assert_eq!(o.set_skiplist(None).unwrap_err().to_string(), "Unknown value for skip-list");
    o.set_keep_smallest();
    assert!(o.keep_smallest_ignored());
    o.set_delete();
    assert!(!o.keep_smallest_ignored());
    let c = o.clone();
    assert_eq!(c.skip_list, o.list);
    assert_eq!(c.list, o.list);
}

#[test]
fn transcode_configure() {
    let args = vec![s("oms"), s("transcode"), s("/videos")];
    let options = vec![(s("d"), s("")), (s("list"), s("/tmp/l.txt")), (s("o"), s("webm"))];
    let cmd = build_cmd(&args, options).unwrap();
    assert_eq!(cmd.file_path, "/videos");
    let files = vec![None, Some(vec![s("a.mkv")]), None];
    match cmd.configure(&files) {
        Ok(TranscodePlan::Run(o)) => {
            assert!(o.delete);
            assert_eq!(o.list, vec![s("a.mkv")]);
            assert_eq!(o.get_output(&s("avi")), "webm");
        },
        _ => panic!("run expected"),
    }
    let bad = build_cmd(&args, vec![(s("nope"), s(""))]).unwrap();
    assert_eq!(bad.configure(&vec![None]).err().unwrap().to_string(), "\nUnkown argument nope\n");
    let help = build_cmd(&args, vec![(s("h"), s(""))]).unwrap();
    assert!(matches!(help.configure(&vec![None]), Ok(TranscodePlan::ShowUsage)));
    assert!(usage().contains("separated by ','"));
}

#[test]
fn transcode_targets() {
    let p = s("/v");
    assert!(target_of(&p, &Ok(PathKind::File), 10).unwrap() == Target::File);
    assert!(target_of(&p, &Ok(PathKind::Dir), 0).unwrap() == Target::Dir);
    assert_eq!(target_of(&p, &Ok(PathKind::Dir), 5).err().unwrap().to_string(), "\n/v\ntranscode error: split only available for file, not directory\n\n");
    assert_eq!(target_of(&p, &Ok(PathKind::Other), 0).err().unwrap().to_string(), "\n/v\ntranscode error: unknown file\n\n");
    let e = target_of(&p, &Err(s("missing")), 0).err().unwrap();
    assert_eq!(e.kind, ErrorKind::NotFound);
    assert_eq!(e.to_string(), "\n/v\ntranscode error: missing\n\n");
    assert!(list_target(&Ok(PathKind::Other)).is_none());
    assert!(list_target(&Ok(PathKind::Dir)) == Some(Target::Dir));
}

#[test]
fn transcode_file_decisions() {
    let mut o = TranscodeOption::new();
    assert!(file_step(&o, &s("/v/a.mkv")) == FileStep::Single);
    assert!(o.set_split(&s("20")).is_ok());
    assert!(file_step(&o, &s("/v/a.mkv")) == FileStep::Split);
    o.set_check();
    assert!(file_step(&o, &s("/v/a.mkv")) == FileStep::Check);
    assert!(o.set_skiplist(Some(vec![s("a.mkv")])).is_ok());
    assert!(file_step(&o, &s("/v/a.mkv")) == FileStep::Skip);

    let o = TranscodeOption::new();
    assert!(takes_single_file(&o, &s("/v/a.AVI")));
    assert!(!takes_single_file(&o, &s("/v/a.txt")));
    assert!(!takes_single_file(&o, &s("/v/a.oms_transcoded.mp4")));
    assert!(needs_transcoding(&o, true));
    assert!(!needs_transcoding(&o, false));
    assert!(takes_split_file(&s("/v/movie.mkv")));
    assert!(!takes_split_file(&s("/v/part-0000001.mkv")));
    assert!(is_split_part("part-1234567.mp4"));
    assert!(!is_split_part("part-123.mp4"));
}

#[test]
fn transcode_outcomes() {
    let mut o = TranscodeOption::new();
    assert!(single_outcome(&o, true, 10, 5) == Outcome::KeepBoth);
    o.set_delete();
    assert!(single_outcome(&o, false, 1, 5) == Outcome::OutputInvalid);
    assert!(single_outcome(&o, true, 10, 5) == Outcome::RemoveOriginal);
    o.set_keep_smallest();
    assert!(single_outcome(&o, true, 10, 5) == Outcome::RemoveOutput);
    assert!(single_outcome(&o, false, 10, 5) == Outcome::OutputInvalid);
    assert!(split_outcome(&o, false, 10, 5) == Outcome::RemoveOutput);
    assert!(split_outcome(&o, false, 1, 5) == Outcome::OutputInvalid);
    assert!(split_outcome(&o, true, 1, 5) == Outcome::RemoveOriginal);
}

#[test]
fn transcode_paths() {
    assert_eq!(final_output_path(&s("/v/a.oms_transcoded.mp4")), "/v/a.mp4");
    assert_eq!(part_output_path(&s("/d/part-0000001.avi"), "mp4"), "/d/part-0000001.avi.oms_transcode_temp.mp4");
    assert_eq!(finished_part_path(&s("/d/p.avi.oms_transcode_temp.mp4")), "/d/p.avi.oms_transcoded.mp4");
    assert!(is_split_leftover(&s("/d/oms_output.txt")));
    assert!(is_split_leftover(&s("/d/p.oms_transcoded.mp4")));
    assert!(!is_split_leftover(&s("/d/movie.mkv")));
    assert!(has_double_extension(&s("/v/a.mp4.mp4")));
    assert!(!has_double_extension(&s("/v/a.mkv.mp4")));
}

#[test]
fn parts_list_is_sorted() {
    let files = vec![
        s("/d/part-0000002.avi.oms_transcoded.mp4"),
        s("/d/part-0000001.avi.oms_transcoded.mp4"),
        s("/d/part-0000003.avi.oms_transcode_temp.mp4"),
        s("/d/part-0000000.avi.oms_transcoded.webm"),
    ];
    assert_eq!(
        parts_list(&files, "mp4"),
        "file 'part-0000001.avi.oms_transcoded.mp4'\nfile 'part-0000002.avi.oms_transcoded.mp4'"
    );
    assert_eq!(parts_list(&vec![], "mp4"), "");
}

#[test]
fn split_starts() {
    let f = s("/v/movie.mkv");
    assert!(matches!(split_start(&s("/v/notes.txt"), &Some(s("/v")), &Err(s(""))), SplitStart::Skip));
    assert!(matches!(split_start(&s("/v/part-0000001.mkv"), &Some(s("/v")), &Err(s(""))), SplitStart::Skip));
    assert!(matches!(split_start(&f, &None, &Err(s(""))), SplitStart::Fail(m) if m == "Transcode error: unable to find directory for /v/movie.mkv"));
    assert!(matches!(split_start(&f, &Some(s("/v")), &Ok(PathKind::File)), SplitStart::Fail(m) if m == "Transcode error: file exists instead of directory: /v/movie"));
    assert!(matches!(split_start(&f, &Some(s("/v")), &Err(s("none"))), SplitStart::Split(w) if w == "/v/movie"));
    assert!(matches!(split_start(&f, &Some(s("/v")), &Ok(PathKind::Dir)), SplitStart::Resume(w) if w == "/v/movie"));
    let files = vec![
        s("/v/movie/part-0000001.mkv"),
        s("/v/movie/part-0000001.mkv.oms_transcoded.mp4"),
        s("/v/movie/oms_output.txt"),
        s("/v/movie/part-0000002.mkv"),
    ];
    assert_eq!(parts_to_transcode(&files), vec![s("/v/movie/part-0000001.mkv"), s("/v/movie/part-0000002.mkv")]);
    assert_eq!(split_output_path(&s("/v/movie"), "mp4"), "/v/movie.mp4");
}
