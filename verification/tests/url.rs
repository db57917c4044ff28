use tabnews::internal::url::join_url;
use tabnews::internal::url::without_leading_slashes;
use tabnews::internal::url::without_trailing_slashes;

#[test]
fn join_puts_one_slash_between_host_and_path() {
    assert_eq!(
        join_url("https://www.tabnews.com.br/api/v1", "/contents"),
        "https://www.tabnews.com.br/api/v1/contents"
    );
    assert_eq!(
        join_url("https://www.tabnews.com.br/api/v1", "users/fadiinho"),
        "https://www.tabnews.com.br/api/v1/users/fadiinho"
    );
}

#[test]
fn join_drops_the_slashes_at_the_seam() {
    assert_eq!(join_url("http://h/", "p"), "http://h/p");
    assert_eq!(join_url("http://h///", "///p/q/"), "http://h/p/q/");
    assert_eq!(join_url("http://h", ""), "http://h/");
    assert_eq!(join_url("", "x"), "/x");
    assert_eq!(join_url("///", "///"), "/");
}

#[test]
fn join_keeps_inner_slashes() {
    assert_eq!(join_url("http://h/a//b", "c//d"), "http://h/a//b/c//d");
}

#[test]
fn trailing_slashes_are_cut() {
    assert_eq!(without_trailing_slashes("abc///"), "abc");
    assert_eq!(without_trailing_slashes("/a/b"), "/a/b");
    assert_eq!(without_trailing_slashes("//"), "");
    assert_eq!(without_trailing_slashes(""), "");
    assert_eq!(without_trailing_slashes("é/"), "é");
}

#[test]
fn leading_slashes_are_cut() {
    assert_eq!(without_leading_slashes("///abc"), "abc");
    assert_eq!(without_leading_slashes("a/b/"), "a/b/");
    assert_eq!(without_leading_slashes("//"), "");
    assert_eq!(without_leading_slashes(""), "");
    assert_eq!(without_leading_slashes("/é"), "é");
}
