use oms::commands::renamemovie::{already_named, build_cmd, choose_movie, make_movie_name,
    rename_target, renaming, same_name, title_year, usage, RenameMovieOption, RenamePlan, Renaming};
use oms::commands::{ErrorKind, PathKind, Target};

fn s(x: &str) -> String {
    x.to_string()
}

#[test]
fn rename_options() {
    let mut o = RenameMovieOption::new();
    assert_eq!(o.provider, "local");
    assert!(o.set_provider("api").is_ok());
    assert_eq!(o.provider, "api");
    assert_eq!(o.set_provider("x").unwrap_err().to_string(), "Unknown value for provider");
    let args = vec![s("oms"), s("renamemovie"), s("/films")];
    let c = build_cmd(&args, vec![(s("p"), s("api"))]).unwrap();
    match c.configure() {
        Ok(RenamePlan::Run(o)) => assert_eq!(o.provider, "api"),
        _ => panic!("run expected"),
    }
    let bad = build_cmd(&args, vec![(s("q"), s(""))]).unwrap();
    assert_eq!(bad.configure().err().unwrap().to_string(), "\nUnkown argument q\n");
    assert!(usage().contains("Title (year)"));
}

#[test]
fn rename_targets() {
    let p = s("/films");
    assert!(rename_target(&p, &Ok(PathKind::Dir)).unwrap() == Target::Dir);
    let e = rename_target(&p, &Err(s("x"))).err().unwrap();
    assert_eq!(e.kind, ErrorKind::AddrInUse);
    assert_eq!(e.to_string(), "\nCannot rename file /films\n");
}

#[test]
fn movie_choice() {
    let one = vec![(s("Heat"), s("1995"))];
    assert_eq!(choose_movie(&one, &s(""), &s("heat.mkv")).unwrap(), (s("Heat"), s("1995")));
    let two = vec![(s("Heat"), s("1995")), (s("Heat"), s("1986"))];
    assert_eq!(choose_movie(&two, &s("1"), &s("heat.mkv")).unwrap(), (s("Heat"), s("1986")));
    assert_eq!(choose_movie(&two, &s(""), &s("heat.mkv")).unwrap(), (s(""), s("")));
    assert_eq!(choose_movie(&two, &s("5"), &s("heat.mkv")).err().unwrap().to_string(), "Invalid index");
    assert_eq!(choose_movie(&vec![], &s(""), &s("heat.mkv")).err().unwrap().to_string(), "No information from providers found for heat.mkv");
}

#[test]
fn movie_names() {
    assert_eq!(make_movie_name("Heat", "1995", "mkv"), "Heat (1995).mkv");
    assert!(same_name("HEAT (1995).MKV", "heat (1995).mkv"));
    assert!(already_named(&s("Heat (1995).MKV"), &s("Heat"), &s("1995")));
    assert_eq!(title_year(s("a"), s("1"), Some((s("B"), s("2")))), (s("B"), s("2")));
    assert_eq!(title_year(s("a"), s("1"), Some((s("B"), s("")))), (s("a"), s("1")));
    assert!(matches!(renaming(&s("heat.mkv"), &s("Heat"), &s("0")), Renaming::Skip));
    assert!(matches!(renaming(&s("Heat (1995).MKV"), &s("Heat"), &s("1995")), Renaming::Keep));
    match renaming(&s("heat.1995.MKV"), &s("Heat"), &s("1995")) {
        Renaming::Rename(n) => assert_eq!(n, "Heat (1995).mkv"),
        _ => panic!("rename expected"),
    }
}
