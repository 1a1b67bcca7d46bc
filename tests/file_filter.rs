use pathsearch::file_filter::{
    ExecutableFilter, FileEntry, FileFilter, FuzzyFilter, RegexFilter, SubstringFilter,
};

fn entry(name: Option<&str>, mode: u32) -> FileEntry {
    FileEntry { file_name: name.map(|s| s.to_string()), mode }
}

#[test]
fn entry_substring_filter() {
    let f = SubstringFilter::new("abc");
    assert!(f.filter(&entry(Some("xyzabc"), 0)));
    assert!(!f.filter(&entry(Some("xyz"), 0)));
    assert!(!f.filter(&entry(None, 0o777)));
}

#[test]
fn entry_regex_filter() {
    let f = RegexFilter::new(r"\d").unwrap();
    assert!(f.filter(&entry(Some("a1"), 0)));
    assert!(!f.filter(&entry(Some("ab"), 0)));
    assert!(!f.filter(&entry(None, 0)));
    assert!(RegexFilter::new("[").is_err());
}

#[test]
fn entry_fuzzy_filter() {
    let f = FuzzyFilter::new("abc");
    assert!(f.filter(&entry(Some("abracadabra"), 0)));
    assert!(!f.filter(&entry(Some("def"), 0)));
    assert!(!f.filter(&entry(None, 0)));
}

#[test]
fn entry_executable_filter() {
    let f = ExecutableFilter {};
    assert!(f.filter(&entry(Some("x"), 0o755)));
    assert!(f.filter(&entry(Some("d"), 0o40711)));
    assert!(!f.filter(&entry(Some("x"), 0o644)));
}
