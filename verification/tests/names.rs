use transcriber::filer::{contains_name, Filer, FilerError};

fn first_free_name(f_name: &str, taken: &Vec<String>) -> Result<String, FilerError> {
    Filer::new("/d").non_existing_name(f_name, taken)
}
use transcriber::names::{
    decimal_digits, extension, file_name, find_last, is_file_name, join_path, make_name, make_new_name, set_extension,
    to_decimal, trim_leading_dots,
};

#[test]
fn test_make_name_change_extension() {
    assert_eq!("document.txt", make_name("document.wav", ".txt"));
}

#[test]
fn test_make_name_change_last_extension_in_multi_extension_file() {
    assert_eq!("archive.tar.lat", make_name("archive.tar.gz", ".lat"));
}

#[test]
fn test_make_name_without_dot_in_extension() {
    assert_eq!("document.txt", make_name("document.wav", "txt"));
    assert_eq!("document.txt", make_name("document.wav", "...txt"));
}

#[test]
fn test_make_name_no_extension_before() {
    assert_eq!("document.meta", make_name("document", ".meta"));
    assert_eq!(".hidden.meta", make_name(".hidden", ".meta"));
}

#[test]
fn test_make_name_empty_extension_removes() {
    assert_eq!("document", make_name("document.wav", ""));
    assert_eq!("document", make_name("document.wav", "."));
}

#[test]
fn test_make_name_in_directory() {
    assert_eq!("dir.d/file.txt", make_name("dir.d/file", ".txt"));
    assert_eq!("dir.d/file.txt", make_name("dir.d/file.wav", ".txt"));
}

#[test]
fn test_make_name_without_file_name() {
    assert_eq!("", make_name("", ".txt"));
    assert_eq!("..", make_name("..", ".txt"));
    assert_eq!(".", make_name(".", ".txt"));
    assert_eq!("dir/", make_name("dir/", ".txt"));
}

#[test]
fn test_make_name_trailing_dot() {
    assert_eq!("a.txt", make_name("a.", ".txt"));
    assert_eq!("...txt", make_name("...", "txt"));
}

#[test]
fn test_make_new_name_same() {
    assert_eq!("document.wav", make_new_name("document.wav", 0));
}

#[test]
fn test_make_new_name_several_extensions() {
    assert_eq!("archive.tar.gz", make_new_name("archive.tar.gz", 0));
}

#[test]
fn test_make_new_name_same_add() {
    assert_eq!("document.1.wav", make_new_name("document.wav", 1));
}

#[test]
fn test_make_new_name_several_extensions_add() {
    assert_eq!("archive.tar.20.gz", make_new_name("archive.tar.gz", 20));
}

#[test]
fn test_make_new_name_no_extension() {
    assert_eq!("document.7", make_new_name("document", 7));
    assert_eq!(".hidden.3", make_new_name(".hidden", 3));
}

#[test]
fn test_make_new_name_negative_and_largest() {
    assert_eq!("a.-1.wav", make_new_name("a.wav", -1));
    assert_eq!("a.2147483647.wav", make_new_name("a.wav", i32::MAX));
    assert_eq!("a.-2147483648.wav", make_new_name("a.wav", i32::MIN));
}

#[test]
fn test_decimal() {
    assert_eq!("0", decimal_digits(0));
    assert_eq!("9", decimal_digits(9));
    assert_eq!("10", decimal_digits(10));
    assert_eq!("18446744073709551615", decimal_digits(u64::MAX));
    assert_eq!("-45", to_decimal(-45));
    assert_eq!("1203", to_decimal(1203));
}

#[test]
fn test_find_last() {
    assert_eq!(Some(7), find_last("archive.tar.gz".replace("tar.", "").as_str(), '.'));
    assert_eq!(Some(11), find_last("archive.tar.gz", '.'));
    assert_eq!(None, find_last("archive", '.'));
    assert_eq!(None, find_last("", '.'));
}

#[test]
fn test_extension() {
    assert_eq!(Some("gz".to_string()), extension("archive.tar.gz"));
    assert_eq!(Some("".to_string()), extension("archive."));
    assert_eq!(None, extension("archive"));
    assert_eq!(None, extension(".profile"));
    assert_eq!(None, extension("dir.d/file"));
    assert_eq!(None, extension(".."));
}

#[test]
fn test_set_extension_keeps_dots_of_extension() {
    assert_eq!("a..txt", set_extension("a.wav", ".txt"));
    assert_eq!("txt", trim_leading_dots("..txt"));
    assert_eq!("", trim_leading_dots("..."));
    assert_eq!("t.x", trim_leading_dots("t.x"));
}

#[test]
fn test_join_path() {
    assert_eq!("/d/working/a.wav", join_path("/d", "working", "a.wav"));
}

#[test]
fn test_first_free_name_when_free() {
    let taken = vec!["b.wav".to_string()];
    assert_eq!("a.wav", first_free_name("a.wav", &taken).unwrap());
    assert_eq!("a.wav", first_free_name("a.wav", &Vec::new()).unwrap());
}

#[test]
fn test_first_free_name_skips_taken() {
    let taken = vec!["a.wav".to_string(), "a.2.wav".to_string(), "a.1.wav".to_string()];
    assert_eq!("a.3.wav", first_free_name("a.wav", &taken).unwrap());
    assert!(!contains_name(&taken, "a.3.wav"));
    assert!(contains_name(&taken, "a.2.wav"));
}

#[test]
fn test_first_free_name_repeated_calls_differ() {
    let mut taken = vec!["a.wav".to_string()];
    let first = first_free_name("a.wav", &taken).unwrap();
    taken.push(first.clone());
    let second = first_free_name("a.wav", &taken).unwrap();
    taken.push(second.clone());
    let third = first_free_name("a.wav", &taken).unwrap();
    assert_eq!("a.1.wav", first);
    assert_eq!("a.2.wav", second);
    assert_eq!("a.3.wav", third);
}

#[test]
fn test_non_existing_name_is_not_taken() {
    let f = Filer::new("/d");
    let taken = vec![
        "proc".to_string(),
        "proc.1".to_string(),
        "proc.3".to_string(),
        "a.wav".to_string(),
    ];
    let name = f.non_existing_name("proc", &taken).unwrap();
    assert_eq!("proc.2", name);
    assert!(!contains_name(&taken, &name));
    assert_eq!("b.wav", f.non_existing_name("b.wav", &taken).unwrap());
    assert_eq!("a.1.wav", f.non_existing_name("a.wav", &taken).unwrap());
}

#[test]
fn test_non_existing_name_is_the_same_for_the_same_directory() {
    let f = Filer::new("/d");
    let taken = vec!["a.wav".to_string(), "a.1.wav".to_string()];
    let shuffled = vec!["a.1.wav".to_string(), "a.wav".to_string(), "a.wav".to_string()];
    assert_eq!("a.2.wav", f.non_existing_name("a.wav", &taken).unwrap());
    assert_eq!("a.2.wav", f.non_existing_name("a.wav", &taken).unwrap());
    assert_eq!("a.2.wav", f.non_existing_name("a.wav", &shuffled).unwrap());
    assert_eq!("a.2.wav", Filer::new("/other").non_existing_name("a.wav", &taken).unwrap());
}

#[test]
fn test_filer_targets() {
    let f = Filer::new("/d");
    assert_eq!("/d", f.base_dir());
    let t = f.target("a.txt", "processed");
    assert_eq!("/d/processed", t.dir);
    assert_eq!("/d/processed/a.txt", t.path);
    let s = f.save_txt("a.err", "failed", "bad");
    assert_eq!("/d/failed/a.err", s.target.path);
    assert_eq!("/d/failed", s.target.dir);
    assert_eq!("bad", s.content);
    let st = f.save_stream("a.wav", "incoming");
    assert_eq!("/d/incoming/a.wav", st.path);
    assert_eq!("/d", f.clone().base_dir());
    assert_eq!("/d/failed", f.dir_of("failed"));
}

#[test]
fn test_plan_move() {
    let f = Filer::new("/d");
    let plan = f.plan_move("a.wav", "a.1.wav", "working", "processed", true, true).unwrap();
    assert_eq!("/d/working/a.wav", plan.source);
    assert_eq!("/d/processed/a.1.wav", plan.dest);
    assert_eq!("/d/processed", plan.dest_dir);
    assert!(plan.remove_dest);
    let plan = f.plan_move("a.wav", "a.wav", "working", "failed", true, false).unwrap();
    assert!(!plan.remove_dest);
}

#[test]
fn test_plan_move_missing_source() {
    let f = Filer::new("/d");
    let err = f.plan_move("a.wav", "a.wav", "working", "failed", false, false).unwrap_err();
    assert!(matches!(&err, FilerError::Missing(p) if p == "/d/working/a.wav"));
    assert_eq!("File /d/working/a.wav does not exist", err.message());
    assert_eq!("No free name", FilerError::NoFreeName.message());
}

#[test]
fn test_move_to_missing_source() {
    let f = Filer::new("/no/such/base/dir");
    let err = f.move_to("a.wav", "a.wav", "working", "failed").unwrap_err();
    assert!(matches!(err, FilerError::Missing(p) if p == "/no/such/base/dir/working/a.wav"));
}

#[test]
fn test_delete_missing_is_an_error() {
    let f = Filer::new("/no/such/base/dir");
    assert!(matches!(f.delete("a.wav", "incoming"), Err(FilerError::Missing(_))));
    assert_eq!("/d/incoming/a.wav", Filer::new("/d").plan_delete("a.wav", "incoming", true).unwrap());
    assert!(matches!(
        Filer::new("/d").plan_delete("a.wav", "incoming", false),
        Err(FilerError::Missing(p)) if p == "/d/incoming/a.wav"
    ));
}

#[test]
fn test_names_without_a_file_have_one_candidate() {
    assert!(!is_file_name(""));
    assert!(!is_file_name(".."));
    assert!(!is_file_name("dir/"));
    assert!(is_file_name("a"));
    assert!(is_file_name("..."));
    assert_eq!("..", make_new_name("..", 3));
    assert_eq!("..", first_free_name("..", &Vec::new()).unwrap());
    assert!(matches!(first_free_name("..", &vec!["..".to_string()]), Err(FilerError::NoFreeName)));
    assert!(matches!(first_free_name("", &vec![String::new()]), Err(FilerError::NoFreeName)));
}

fn std_with_extension(name: &str, ext: &str) -> String {
    let mut path = std::path::PathBuf::from(name);
    path.set_extension(ext);
    path.to_string_lossy().into_owned()
}

fn std_extension(name: &str) -> Option<String> {
    std::path::Path::new(name).extension().map(|e| e.to_string_lossy().into_owned())
}

fn sample_names() -> Vec<&'static str> {
    vec![
        "a.wav",
        "archive.tar.gz",
        "noext",
        ".hidden",
        ".hidden.txt",
        "a.",
        "a..b",
        "a.b.",
        "dir/file.wav",
        "dir.d/file",
        "dir.d/.file",
        "dir.d/file.",
        "/abs/path/x.y.z",
        "..",
        ".",
        "",
        "...",
        "....",
        "a/..",
        "a/...",
        "b/.x.",
        "\u{fc}n\u{ef}.c\u{f6}d\u{e9}",
        "dir/.hidden",
        "x.1",
        "-",
        "-.-",
    ]
}

#[test]
fn test_extension_agrees_with_std_paths() {
    for name in sample_names() {
        assert_eq!(std_extension(name), extension(name), "extension of {:?}", name);
    }
}

#[test]
fn test_set_extension_agrees_with_std_paths() {
    for name in sample_names() {
        for ext in ["txt", "", "tar.gz", "1", "meta", ".x"] {
            assert_eq!(
                std_with_extension(name, ext),
                set_extension(name, ext),
                "{:?} with {:?}",
                name,
                ext
            );
        }
    }
}

#[test]
fn test_make_new_name_agrees_with_std_paths() {
    for name in sample_names() {
        for num in [1, 2, 10, 99, 12345, -3, i32::MAX] {
            let ext = match std_extension(name) {
                Some(e) => format!("{}.{}", num, e),
                None => format!("{}", num),
            };
            assert_eq!(
                std_with_extension(name, &ext),
                make_new_name(name, num),
                "{:?} numbered {}",
                name,
                num
            );
        }
        assert_eq!(name, make_new_name(name, 0));
    }
}

#[test]
fn test_decimal_agrees_with_formatting() {
    for n in [0, 1, 9, 10, 11, 99, 100, 101, 4096, 65535, 1_000_000, i32::MAX, -1, -10, i32::MIN] {
        assert_eq!(format!("{}", n), to_decimal(n));
    }
    for n in [0u64, 7, 10, 12345678901234567890, u64::MAX] {
        assert_eq!(format!("{}", n), decimal_digits(n));
    }
}

#[test]
fn test_file_name() {
    assert_eq!(Some("a.wav".to_string()), file_name("/d/working/a.wav"));
    assert_eq!(Some("a.wav".to_string()), file_name("a.wav"));
    assert_eq!(None, file_name("/d/working/"));
    assert_eq!(None, file_name("/d/.."));
    assert_eq!(None, file_name(""));
}
