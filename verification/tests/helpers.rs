use oms::helpers::{rtrim_char, ltrim_char, rtrim_slash, get_file_name,
    get_extension, remove_extension, parse_command_option, option_key_index};

#[test]
fn rtrim_char_slash() {
    let my_string = String::from("http://localhost/osm/");
    assert_eq!("http://localhost/osm", rtrim_char(&my_string, '/'));
}

#[test]
fn rtrim_char_notfound() {
    let my_string = String::from("http://localhost/osm");
    assert_eq!("http://localhost/osm", rtrim_char(&my_string, '/'));
}

#[test]
fn rtrim_char_removes_one_only() {
    assert_eq!("a//", rtrim_slash(&"a///".to_string()));
    assert_eq!("", rtrim_slash(&"/".to_string()));
}

#[test]
fn ltrim_char_start() {
    assert_eq!("osm/", ltrim_char(&"/osm/".to_string(), '/'));
}

#[test]
fn rtrim_char_special_characters() {
    // The character itself is stripped, also where the regex syntax gives it
    // a meaning.
    assert_eq!("a", rtrim_char(&"a.".to_string(), '.'));
    assert_eq!("ab", rtrim_char(&"ab".to_string(), '.'));
    assert_eq!("a", rtrim_char(&"a$".to_string(), '$'));
    assert_eq!("a$b", rtrim_char(&"a$b".to_string(), '$'));
    assert_eq!("c:", rtrim_char(&"c:\\".to_string(), '\\'));
    assert_eq!("a", ltrim_char(&"(a".to_string(), '('));
    assert_eq!("a(", ltrim_char(&"a(".to_string(), '('));
}

#[test]
fn file_name_pieces() {
    assert_eq!("movie.mkv", get_file_name("/media/films/movie.mkv"));
    assert_eq!("mkv", get_extension("/media/films/movie.mkv"));
    assert_eq!("", get_extension("/media/films/.hidden"));
    assert_eq!("", get_extension("/media/films.d/readme"));
    assert_eq!("movie", remove_extension("movie.mkv"));
    assert_eq!("archive.tar", remove_extension("archive.tar.gz"));
}

#[test]
fn command_line_options() {
    let args: Vec<String> = vec!["oms", "search", "--display=debug", "-e=avi", "--help", "path", "--display=file-only"]
        .into_iter().map(String::from).collect();
    let o = parse_command_option(&args);
    assert_eq!(o, vec![
        ("display".to_string(), "file-only".to_string()),
        ("e".to_string(), "avi".to_string()),
        ("help".to_string(), "".to_string()),
    ]);
    assert_eq!(option_key_index(&o, "e"), Some(1));
    assert_eq!(option_key_index(&o, "x"), None);
}
