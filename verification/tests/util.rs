use korah::util::fmt::ErrorChainDisplay;

#[test]
fn test_error_chain_display() {
    let chain = vec!["v3".to_owned(), "v2".to_owned(), "v".to_owned()];
    let err = chain[0].clone();
    let alt = ErrorChainDisplay::new(chain);
    assert_eq!(format!("{err}"), "v3");
    assert_eq!(alt.to_string(), "v3: v2: v");
}

#[test]
fn chain_of_one_has_no_separator() {
    assert_eq!(ErrorChainDisplay::new(vec!["alone".to_owned()]).to_string(), "alone");
}

#[test]
fn empty_chain_is_empty_text() {
    assert_eq!(ErrorChainDisplay::new(Vec::new()).to_string(), "");
}

#[test]
fn empty_messages_keep_their_separators() {
    let display = ErrorChainDisplay::new(vec!["".to_owned(), "b".to_owned(), "".to_owned()]);
    assert_eq!(display.to_string(), ": b: ");
}
