use xml_schema_derive::context::NameContext;
use xml_schema_derive::naming::field_name;
use xml_schema_derive::naming::name_field;

#[test]
fn field_names_are_snake_case() {
    assert_eq!(field_name("FieldName", false), "field_name");
    assert_eq!(field_name("volume-type", false), "volume_type");
    assert_eq!(field_name("format", false), "format");
    assert_eq!(field_name("XMLHttpRequest", false), "xml_http_request");
}

#[test]
fn lists_get_an_s() {
    assert_eq!(field_name("author", true), "authors");
    assert_eq!(field_name("BookTitle", true), "book_titles");
    assert_eq!(field_name("type", true), "kinds");
}

#[test]
fn field_name_from_given_snake_form() {
    assert_eq!(name_field("Type", "type".to_string(), false), "kind");
    assert_eq!(name_field("Type", "whatever".to_string(), true), "kinds");
    assert_eq!(name_field("Title", "title".to_string(), false), "title");
    assert_eq!(name_field("Title", "title".to_string(), true), "titles");
    assert_eq!(name_field("", String::new(), true), "s");
}

#[test]
fn empty_context_qualifies_by_casing_alone() {
    let names = NameContext::new();
    assert_eq!(names.prefix(), "");
    assert_eq!(names.raw_name("volume"), "volume");
    assert_eq!(names.qualify("volume"), "Volume");
    assert_eq!(names.qualify("volume-type"), "VolumeType");
    assert_eq!(names.qualify("volume.type"), "VolumeType");
}

#[test]
fn extending_leaves_the_shorter_context_as_it_was() {
    let outer = NameContext::new().extend("Book");
    let inner = outer.extend("Chapter");
    assert_eq!(outer.fragments, vec!["Book".to_string()]);
    assert_eq!(
        inner.fragments,
        vec!["Book".to_string(), "Chapter".to_string()]
    );
    assert_eq!(outer.prefix(), "Book");
    assert_eq!(inner.prefix(), "BookChapter");
    assert_eq!(inner.raw_name("format"), "BookChapterformat");
}

#[test]
fn same_local_name_under_different_parents_gets_different_names() {
    let paper = NameContext::new().extend("Book").extend("paper");
    let screen = NameContext::new().extend("Book").extend("screen");
    assert_eq!(paper.qualify("format"), "Bookpaperformat");
    assert_eq!(screen.qualify("format"), "Bookscreenformat");
    assert_ne!(paper.qualify("format"), screen.qualify("format"));
}

#[test]
fn chains_that_spell_one_name_collide() {
    let a = NameContext::new().extend("a").extend("bc");
    let b = NameContext::new().extend("ab").extend("c");
    assert_eq!(a.qualify("format"), b.qualify("format"));
}

#[test]
fn casing_can_identify_different_raw_names() {
    let a = NameContext::new().extend("a_b");
    let b = NameContext::new().extend("aB");
    assert_ne!(a.raw_name("x"), b.raw_name("x"));
    assert_eq!(a.qualify("x"), b.qualify("x"));
}

#[test]
fn type_word_agrees_with_lowercasing_for_every_character() {
    let word = ['t', 'y', 'p', 'e'];
    for position in 0..4 {
        for code in 0..=0x10FFFFu32 {
            if let Some(c) = char::from_u32(code) {
                let mut letters = word;
                letters[position] = c;
                let name: String = letters.iter().collect();
                assert_eq!(
                    xml_schema_derive::text::is_type_word(&name),
                    name.to_lowercase() == "type",
                    "{name:?}"
                );
            }
        }
    }
}
