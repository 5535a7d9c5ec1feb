use blog_posts::post::{Draft, Post, PostForm, ValidationError};
use blog_posts::text::{char_is_space, chars_of, same_text, text_is_blank};

fn form(title: Option<&str>, text: Option<&str>) -> PostForm {
    PostForm { title: title.map(str::to_owned), text: text.map(str::to_owned) }
}

#[test]
fn valid_form_gives_its_fields_untrimmed() {
    let draft = form(Some("  Hello "), Some("World\n")).validate();
    assert_eq!(draft, Ok(Draft { title: "  Hello ".to_owned(), text: "World\n".to_owned() }));
}

#[test]
fn form_without_title_is_turned_down() {
    assert_eq!(form(None, Some("World")).validate(), Err(ValidationError::MissingTitle));
    assert_eq!(form(None, None).validate(), Err(ValidationError::MissingTitle));
}

#[test]
fn form_with_blank_title_is_turned_down() {
    assert_eq!(form(Some(""), Some("World")).validate(), Err(ValidationError::BlankTitle));
    assert_eq!(form(Some(" \t\r\n"), Some("World")).validate(), Err(ValidationError::BlankTitle));
    assert_eq!(form(Some("\u{3000}\u{a0}"), None).validate(), Err(ValidationError::BlankTitle));
}

#[test]
fn form_without_text_is_turned_down() {
    assert_eq!(form(Some("Hello"), None).validate(), Err(ValidationError::MissingText));
}

#[test]
fn form_with_blank_text_is_turned_down() {
    assert_eq!(form(Some("Hello"), Some("")).validate(), Err(ValidationError::BlankText));
    assert_eq!(form(Some("Hello"), Some("   ")).validate(), Err(ValidationError::BlankText));
}

#[test]
fn faults_have_their_sentences() {
    assert_eq!(ValidationError::MissingTitle.message(), "Title is required");
    assert_eq!(ValidationError::BlankTitle.message(), "Title must not be blank");
    assert_eq!(ValidationError::MissingText.message(), "Text is required");
    assert_eq!(ValidationError::BlankText.message(), "Text must not be blank");
}

#[test]
fn clone_of_a_post_is_equal() {
    let post = Post { id: 3, title: "T".to_owned(), text: "B".to_owned() };
    assert_eq!(post.clone(), post);
}

#[test]
fn white_space_is_what_unicode_says() {
    for c in (0u32..=0x3100).filter_map(char::from_u32) {
        assert_eq!(char_is_space(c), c.is_whitespace(), "U+{:04X}", c as u32);
    }
    assert!(!char_is_space('\u{200B}'));
    assert!(!char_is_space('\u{FEFF}'));
}

#[test]
fn blank_text_holds_white_space_only() {
    assert!(text_is_blank(""));
    assert!(text_is_blank(" \t\n\u{2003}"));
    assert!(!text_is_blank(" a "));
    assert!(!text_is_blank("\u{200B}"));
}

#[test]
fn chars_and_equality_of_texts() {
    assert_eq!(chars_of("héllo"), vec!['h', 'é', 'l', 'l', 'o']);
    assert_eq!(chars_of(""), Vec::<char>::new());
    assert!(same_text("abc", "abc"));
    assert!(same_text("", ""));
    assert!(!same_text("abc", "abd"));
    assert!(!same_text("abc", "ab"));
    assert!(!same_text("ab", "abc"));
}
