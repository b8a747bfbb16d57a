use rusty_dotfiler::error::SimpleRunError;
use rusty_dotfiler::filemap::Filemap;
use rusty_dotfiler::store::{Field, FreshReason, Loaded, ReadOutcome};

fn vimrc_and_hosts() -> Filemap {
    Filemap {
        names: vec![String::from("vimrc"), String::from("hosts")],
        source_paths: vec![String::from("./dotfiles/vimrc"), String::from("./dotfiles/hosts")],
        install_paths: vec![String::from("~/.vimrc"), String::from("/etc/hosts")],
    }
}

fn strings(items: &[&str]) -> Option<Vec<Option<String>>> {
    Some(items.iter().map(|item| Some(String::from(*item))).collect())
}

fn field(key: &str, items: Option<Vec<Option<String>>>) -> Field {
    Field { key: String::from(key), strings: items }
}

#[test]
fn save_writes_the_three_lists() {
    assert_eq!(
        vimrc_and_hosts().save(),
        Ok(String::from(
            "names = [\"vimrc\", \"hosts\"]\nsource_paths = [\"./dotfiles/vimrc\", \"./dotfiles/hosts\"]\ninstall_paths = [\"~/.vimrc\", \"/etc/hosts\"]\n"
        ))
    );
}

#[test]
fn save_writes_the_sentinel() {
    assert_eq!(
        Filemap::new().save(),
        Ok(String::from("names = [\"\"]\nsource_paths = [\"\"]\ninstall_paths = [\"\"]\n"))
    );
}

#[test]
fn what_was_saved_is_read_back() {
    for map in [
        vimrc_and_hosts(),
        Filemap::new(),
        Filemap { names: vec![], source_paths: vec![], install_paths: vec![] },
        Filemap {
            names: vec![String::from("quote \" and \\ and \n newline"), String::from("é ü 日本")],
            source_paths: vec![String::from("./a b"), String::from("./#c")],
            install_paths: vec![String::from("~/'x'"), String::from("~/[y]")],
        },
    ] {
        let text = map.save().unwrap();
        assert_eq!(Filemap::parse(&text), Some(map.clone()));
        assert_eq!(Filemap::from(ReadOutcome::Text(text)), Loaded::Stored(map));
    }
}

#[test]
fn a_missing_file_gives_a_fresh_map_that_declares_nothing() {
    match Filemap::from(ReadOutcome::NotFound) {
        Loaded::Fresh(map, reason) => {
            assert_eq!(reason, FreshReason::Missing);
            assert_eq!(map.names, vec![String::from("")]);
            assert_eq!(map.source_paths, vec![String::from("")]);
            assert_eq!(map.install_paths, vec![String::from("")]);
            assert!(map.check_empty());
            let text = map.save().unwrap();
            assert_eq!(Filemap::parse(&text), Some(map));
        }
        other => panic!("expected a fresh map, found {:?}", other),
    }
}

#[test]
fn a_file_that_may_not_be_read_stops_the_run() {
    assert_eq!(Filemap::from(ReadOutcome::PermissionDenied), Loaded::Denied);
}

#[test]
fn text_that_is_no_document_gives_a_fresh_map() {
    for text in ["names = [", "not toml at all", "names = [\"a\"]\nnames = [\"b\"]\n"] {
        assert_eq!(Filemap::parse(text), None);
        assert_eq!(
            Filemap::from(ReadOutcome::Text(String::from(text))),
            Loaded::Fresh(Filemap::new(), FreshReason::Unparsable)
        );
    }
}

#[test]
fn a_document_without_all_three_lists_gives_a_fresh_map() {
    for text in [
        "",
        "names = [\"a\"]\nsource_paths = [\"b\"]\n",
        "names = [\"a\"]\nsource_paths = [\"b\"]\ninstall_paths = \"c\"\n",
        "names = [\"a\"]\nsource_paths = [\"b\"]\ninstall_paths = [1]\n",
        "names = [\"a\"]\nsource_paths = [\"b\", 2]\ninstall_paths = [\"c\"]\n",
        "[names]\nsource_paths = [\"b\"]\ninstall_paths = [\"c\"]\n",
    ] {
        assert_eq!(Filemap::parse(text), None, "{:?}", text);
        assert_eq!(
            Filemap::from(ReadOutcome::Text(String::from(text))),
            Loaded::Fresh(Filemap::new(), FreshReason::Unparsable)
        );
    }
}

#[test]
fn lists_of_different_lengths_give_a_fresh_map() {
    let text = "names = [\"a\", \"b\"]\nsource_paths = [\"c\"]\ninstall_paths = [\"d\", \"e\"]\n";
    assert_eq!(Filemap::parse(text), None);
}

#[test]
fn parse_reads_the_lists_in_any_order_and_ignores_other_keys() {
    let text = "title = \"my dotfiles\"\ninstall_paths = [\n  \"~/.vimrc\", # editor\n  '/etc/hosts',\n]\ncount = 2\nsource_paths = [\"./dotfiles/vimrc\", \"./dotfiles/hosts\"]\nnames = [\"vimrc\", \"hosts\"]\n\n[extra]\nnames = [\"no\"]\n";
    assert_eq!(Filemap::parse(text), Some(vimrc_and_hosts()));
}

#[test]
fn parse_reads_empty_lists() {
    let text = "names = []\nsource_paths = []\ninstall_paths = []\n";
    let map = Filemap::parse(text).unwrap();
    assert_eq!(map.len(), 0);
    assert!(map.check_empty());
}

#[test]
fn from_document_takes_the_first_field_of_each_key() {
    let fields = vec![
        field("other", None),
        field("source_paths", strings(&["./dotfiles/vimrc", "./dotfiles/hosts"])),
        field("names", strings(&["vimrc", "hosts"])),
        field("install_paths", strings(&["~/.vimrc", "/etc/hosts"])),
        field("names", strings(&["later"])),
    ];
    assert_eq!(Filemap::from_document(&fields), Some(vimrc_and_hosts()));
}

#[test]
fn from_document_refuses_what_is_no_list_of_strings() {
    let good = || {
        vec![
            field("names", strings(&["a"])),
            field("source_paths", strings(&["b"])),
            field("install_paths", strings(&["c"])),
        ]
    };
    assert!(Filemap::from_document(&good()).is_some());

    let mut fields = good();
    fields[1].strings = None;
    assert_eq!(Filemap::from_document(&fields), None);

    let mut fields = good();
    fields[2].strings = Some(vec![None]);
    assert_eq!(Filemap::from_document(&fields), None);

    let mut fields = good();
    fields[0].strings = Some(vec![Some(String::from("a")), None]);
    assert_eq!(Filemap::from_document(&fields), None);

    let mut fields = good();
    fields.remove(0);
    assert_eq!(Filemap::from_document(&fields), None);

    let mut fields = good();
    fields[0].strings = strings(&["a", "b"]);
    assert_eq!(Filemap::from_document(&fields), None);

    assert_eq!(Filemap::from_document(&vec![]), None);
}

#[test]
fn save_error_is_the_error_of_save() {
    let saved: Result<String, SimpleRunError> = Filemap::new().save();
    assert!(saved.is_ok());
    assert_eq!(SimpleRunError::SaveError.as_str(), "Can't save filemap.");
}
