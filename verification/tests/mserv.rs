use oms::commands::mserv::request::range_start;
use oms::commands::mserv::option::{MservInput, MservOption};
use oms::commands::mserv::request::{content_length, decode_request_path, file_path_under,
    join_path, parse_request_line, request_body, response_head, route, split_lines,
    static_content_type, stream_headers, stream_range, streams_extension, summary_of,
    thumb_cache_key, thumb_headers, thumb_source, get_file_path, Route, ThumbSource};
use oms::commands::mserv::tasks::{drops_index, metadata_kind, metadata_target,
    non_streaming_extension_list, scan_command, scan_target, service_unit, transcode_request,
    MetadataKind, ScanTarget, TranscodeRequest};
use oms::commands::mserv::{bind_error, build_cmd, started_message, usage, MservPlan};
use oms::commands::{CmdError, ErrorKind};
use oms::helpers::Elastic;

fn s(x: &str) -> String {
    x.to_string()
}

fn server() -> MservOption {
    MservOption::new(vec![s("127.0.0.1:7777")])
}

#[test]
fn mserv_options() {
    let mut o = server();
    assert_eq!(o.provider, "api");
    assert_eq!(o.transcode_output, "mp4");
    assert!(o.transcode_thread >= 1);
    assert_eq!(o.display_urls(), "http://127.0.0.1:7777 ");
    assert!(o.set_url(&s("x:1"), Some(vec![s("http://a:1"), s("[::1]:2")])).is_ok());
    assert_eq!(o.display_urls(), "http://a:1 http://[::1]:2 ");
    assert_eq!(o.set_url(&s("bad url"), None).unwrap_err().to_string(), "Invalid url bad url");
    assert_eq!(o.set_basepath(&s("/nope"), false).unwrap_err().to_string(), "Base path /nope is not a directory");
    assert!(o.set_basepath(&s("/media/"), true).is_ok());
    assert_eq!(o.base_path, "/media");
    o.set_transcode_output(&s("webm"));
    assert_eq!(o.transcode_output, "webm");
    assert_eq!(o.set_transcode_thread(&s("x")).unwrap_err().to_string(), "Invalid value for transcode thread");
    assert!(o.set_transcode_thread(&s("2")).is_ok());
    assert_eq!(o.transcode_thread, 2);
    let c = o.clone();
    assert_eq!(c.urls, o.urls);
    assert_eq!(started_message(&o), "Server started at http://a:1 http://[::1]:2 ");
    let e = bind_error(&o, "in use");
    assert_eq!(e.kind, ErrorKind::AddrNotAvailable);
    assert_eq!(e.to_string(), "\nUnable to start server on http://a:1 http://[::1]:2 , in use\n");
}

#[test]
fn mserv_configure() {
    let cmd = build_cmd(&vec![], vec![(s("base-path"), s("/media/")), (s("elastic-url"), s("http://e"))]).unwrap();
    let inputs = vec![MservInput::IsDir(true), MservInput::Server(Ok(Elastic { url: s("http://e") }))];
    match cmd.configure(server(), inputs) {
        Ok(MservPlan::Serve(o)) => {
            assert_eq!(o.base_path, "/media");
            assert_eq!(o.elastic.unwrap().url, "http://e");
        },
        _ => panic!("serve expected"),
    }
    let none = build_cmd(&vec![], vec![(s("p"), s("local"))]).unwrap();
    let e = none.configure(server(), vec![MservInput::Nothing]).err().unwrap();
    assert_eq!(e.to_string(), "\nYou must provide base-path option\n");
    let down = build_cmd(&vec![], vec![(s("elastic-url"), s("http://e"))]).unwrap();
    let e = down.configure(server(), vec![MservInput::Server(Err(CmdError::new(ErrorKind::NotFound, s("down"))))]).err().unwrap();
    assert_eq!(e.to_string(), "down");
    let help = build_cmd(&vec![], vec![(s("help"), s(""))]).unwrap();
    assert!(matches!(help.configure(server(), vec![MservInput::Nothing]), Ok(MservPlan::ShowUsage)));
    assert!(usage().starts_with("mserv"));
}

#[test]
fn request_reading() {
    let text = "POST /update-metadata/a.mkv HTTP/1.1\r\nHost: x\r\nContent-Length: 5\r\nContent-Length: x\r\n\r\nhello";
    let lines = split_lines(text);
    assert_eq!(lines.len(), 6);
    assert_eq!(lines[0], "POST /update-metadata/a.mkv HTTP/1.1");
    assert_eq!(lines[4], "");
    assert_eq!(content_length(&lines), 5);
    assert_eq!(request_body(text, 5), "hello");
    assert_eq!(split_lines("a\nb\n"), vec![s("a"), s("b")]);
    assert_eq!(split_lines("a\r"), vec![s("a\r")]);
    assert!(split_lines("").is_empty());
}

#[test]
fn request_line_law() {
    assert_eq!(parse_request_line("GET /a b HTTP/1.1"), Some((s("GET"), s("/a b"), s("HTTP/1.1"))));
    assert_eq!(parse_request_line("GET /a HTTP/x HTTP/1.1"), Some((s("GET"), s("/a HTTP/x"), s("HTTP/1.1"))));
    assert_eq!(parse_request_line("get /a HTTP/1.1"), None);
    assert_eq!(parse_request_line("GE /a HTTP/1.1"), None);
    assert_eq!(parse_request_line("GET a HTTP/1.1"), None);
    assert_eq!(parse_request_line("GET /a HTTP/"), None);
    assert_eq!(parse_request_line("GET /a\n HTTP/1.1"), None);
}

#[test]
fn routes() {
    assert!(matches!(route("OPTIONS", "/stream/x"), Route::Options));
    assert!(matches!(route("GET", "/"), Route::Static(t) if t == "text/html; charset=utf-8"));
    assert_eq!(static_content_type("/favicon.ico"), Some("image/x-icon"));
    assert_eq!(static_content_type("/nothing.js"), None);
    assert!(matches!(route("GET", "/stream/films/a.mkv"), Route::Stream(p) if p == "/films/a.mkv"));
    assert!(matches!(route("GET", "/thumb/a.jpg"), Route::Thumb(p) if p == "/a.jpg"));
    assert!(matches!(route("GET", "/poster/a.jpg"), Route::Poster(p) if p == "/a.jpg"));
    assert!(matches!(route("GET", "/open/a.pdf"), Route::Open(p) if p == "/a.pdf"));
    assert!(matches!(route("GET", "/scan-dir"), Route::ScanAll));
    assert!(matches!(route("GET", "/scan-dir/films/a.mkv "), Route::ScanFile(p, false) if p == "/films/a.mkv"));
    assert!(matches!(route("GET", "/update-metadata/a.mkv"), Route::ScanFile(p, true) if p == "/a.mkv"));
    assert!(matches!(route("POST", "/update-metadata/a.mkv"), Route::UpdateMetadata(p) if p == "/a.mkv"));
    assert!(matches!(route("PUT", "/scan-dir"), Route::NotFound));
    assert!(matches!(route("GET", "/transcode-dir/avi"), Route::TranscodeDir(p) if p == "/transcode-dir/avi"));
    assert!(matches!(route("GET", "/summary"), Route::Summary));
    assert!(matches!(route("GET", "/all-files-path"), Route::AllFilesPath));
    assert!(matches!(route("GET", "/service-log"), Route::ServiceLog));
    assert!(matches!(route("GET", "/prerequistes"), Route::Prerequisites));
    assert!(matches!(route("GET", "/elsewhere"), Route::NotFound));
    assert_eq!(decode_request_path("/a%20b//c"), "/a b/c");
    assert_eq!(decode_request_path("/%FF"), "");
}

#[test]
fn file_paths() {
    assert_eq!(join_path("/media", "a.mkv"), "/media/a.mkv");
    assert_eq!(join_path("/media/", "a.mkv"), "/media/a.mkv");
    assert_eq!(join_path("/media", "/etc/passwd"), "/etc/passwd");
    assert_eq!(join_path("", "a"), "a");
    assert_eq!(file_path_under(&s("/media/"), &s("/films/a.mkv")), "/media/films/a.mkv");
    assert_eq!(get_file_path(&s("/media"), Some(s("/media/films/a.mkv"))), Some(s("/media/films/a.mkv")));
    assert_eq!(get_file_path(&s("/media"), Some(s("/etc/passwd"))), None);
    assert_eq!(get_file_path(&s("/media"), None), None);
}

#[test]
fn stream_answers() {
    assert_eq!(stream_range(0, 10), (9, 10));
    assert_eq!(stream_range(0, 4_000_000), (1_499_999, 1_500_000));
    assert_eq!(stream_range(20, 10), (9, 0));
    assert_eq!(stream_range(0, 0), (0, 1));
    let h = stream_headers(&s("video/mp4"), 0, 10);
    assert_eq!(h[2], (s("Content-Range"), s("bytes 0-9/10")));
    assert_eq!(h[3], (s("Content-Length"), s("10")));
    assert!(streams_extension("mkv") && streams_extension("mp3") && !streams_extension("MKV"));
    assert_eq!(response_head("200 OK", &vec![(s("A"), s("1")), (s("B"), s("2"))]), "HTTP/1.1 200 OK\r\nA: 1\r\nB: 2\r\n\r\n");
    assert_eq!(response_head("404 Not Found", &vec![]), "HTTP/1.1 404 Not Found\r\n\r\n");
}

#[test]
fn thumbs_and_summary() {
    assert_eq!(thumb_cache_key("300:-1", &s("/media/a.mkv")), "bfdf1549bf2445ae10b64ef69eeb403e5248d9206e3cdec27d516a4a7522054b");
    assert!(thumb_source(&s("/a.MKV")) == ThumbSource::Video);
    assert!(thumb_source(&s("/a.jpg")) == ThumbSource::Image);
    assert!(thumb_source(&s("/a.pdf")) == ThumbSource::Pdf);
    assert!(thumb_source(&s("/a.doc")) == ThumbSource::Unsupported);
    assert_eq!(thumb_headers()[0], (s("Content-type"), s("image/jpeg")));
    let r = summary_of(vec![(s("mkv"), 3), (s("avi"), 2)]);
    assert_eq!(r.files_count, 5);
    assert_eq!(r.files_extension.len(), 2);
}

#[test]
fn server_tasks() {
    assert_eq!(non_streaming_extension_list(), "mkv,avi,mov,wmv,flv,m4v,mpg,mpeg,3gp,ogv");
    let mut o = server();
    assert!(matches!(transcode_request(&s("/transcode-dir"), &o), TranscodeRequest::Skip));
    assert!(o.set_basepath(&s("/media"), true).is_ok());
    match transcode_request(&s("/transcode-dir"), &o) {
        TranscodeRequest::Run(t) => {
            assert_eq!(t.file_path, "/media");
            assert_eq!(t.cmd_options[0], (s("d"), s("")));
            assert_eq!(t.cmd_options[1], (s("output"), s("mp4")));
            assert_eq!(t.cmd_options[3], (s("extensions"), non_streaming_extension_list()));
        },
        _ => panic!("run expected"),
    }
    match transcode_request(&s("/transcode-dir/AVI"), &o) {
        TranscodeRequest::Run(t) => assert_eq!(t.cmd_options[3], (s("extensions"), s("AVI"))),
        _ => panic!("run expected"),
    }
    assert!(matches!(transcode_request(&s("/transcode-dir/txt"), &o), TranscodeRequest::Skip));
    assert!(matches!(transcode_request(&s("/transcode-dir/films/a.avi"), &o), TranscodeRequest::File(p, _) if p == "films/a.avi"));

    assert!(matches!(scan_target(&s(""), &o), ScanTarget::Base));
    assert!(matches!(scan_target(&s("/media/films/a.mkv"), &o), ScanTarget::Under(p) if p == "/films/a.mkv"));
    let info = scan_command(&s("/media"), &o, true);
    assert_eq!(info.file_path, "/media");
    assert!(info.cmd_options.contains(&(s("thread"), s("1"))));
    assert!(info.cmd_options.contains(&(s("update-metadata"), s(""))));
    assert!(!drops_index(&s("/media"), &o, false));
    assert!(o.set_elastic(Ok(Elastic { url: s("http://e") })).is_ok());
    assert!(drops_index(&s("/media"), &o, false));
    assert!(!drops_index(&s("/media"), &o, true));
    assert_eq!(metadata_target(&s(""), &o).err().unwrap().to_string(), "Update metadata: error file_path is empty");
    assert!(metadata_kind(&s("/media/a.mkv")).unwrap() == MetadataKind::Video);
    assert!(metadata_kind(&s("/media/a.PDF")).unwrap() == MetadataKind::Pdf);
    assert_eq!(metadata_kind(&s("/media/a.txt")).err().unwrap().kind, ErrorKind::Unsupported);
    assert_eq!(service_unit(&o), "media.service");
}

#[test]
fn range_starts() {
    let lines = vec![s("GET /stream/a.mkv HTTP/1.1"), s("Range: bytes=1000-"), s("Range: bytes=5-9")];
    assert_eq!(range_start(&lines), Some(1000));
    assert_eq!(range_start(&vec![s("Range: bytes=20-40")]), Some(20));
    assert_eq!(range_start(&vec![s("Range: bytes=x-")]), None);
    assert_eq!(range_start(&vec![s("Range: bytes=7")]), None);
    assert_eq!(range_start(&vec![s("Host: a")]), None);
    assert_eq!(stream_range(1000, 1500), (1499, 500));
}

#[test]
fn percent_decoding() {
    assert_eq!(decode_request_path("/%41%4a%2f"), "/AJ/");
    assert_eq!(decode_request_path("/100%"), "/100%");
    assert_eq!(decode_request_path("/%4G%%41"), "/%4G%A");
    assert_eq!(decode_request_path("/a+b"), "/a+b");
    assert_eq!(decode_request_path("/%C3%A9t%C3%A9"), "/été");
}
