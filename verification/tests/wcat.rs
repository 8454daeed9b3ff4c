use ostep::wcat::{cat, wcat, CatStep};

fn read(text: &str) -> Option<String> {
    Some(text.to_owned())
}

#[test]
fn files_are_printed_in_order() {
    assert_eq!(wcat(vec![read("a\n"), read(""), read("b")]), ("a\nb".to_owned(), true));
    assert_eq!(wcat(vec![]), (String::new(), true));
}

#[test]
fn the_first_file_that_cannot_be_read_ends_the_run() {
    assert_eq!(wcat(vec![read("a\n"), None, read("b")]), ("a\nwcat: cannot open file\n".to_owned(), false));
    assert_eq!(wcat(vec![None, None]), ("wcat: cannot open file\n".to_owned(), false));
}

#[test]
fn each_file_is_a_step() {
    assert_eq!(cat(read("a")), CatStep::Print("a".to_owned()));
    assert_eq!(cat(None), CatStep::Fail("wcat: cannot open file\n".to_owned()));
}
