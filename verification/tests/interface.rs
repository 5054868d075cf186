use translate_gemma::assets::Icons;
use translate_gemma::language::Language;
use translate_gemma::language_selector::{position_of, LanguageItem};
use translate_gemma::locale_selector::{ChangeLocale, Locale};
use translate_gemma::menu::{model_menu, ModelEntry};

#[test]
fn icons_lie_among_the_assets() {
    assert_eq!(Icons::ArrowRightLeft.path(), "icons/arrow-right-left.svg");
    assert_eq!(Icons::Clipboard.path(), "icons/clipboard.svg");
    assert_eq!(Icons::Languages.path(), "icons/languages.svg");
    assert_eq!(Icons::Save.path(), "icons/save.svg");
    assert_eq!(Icons::Trash.path(), "icons/trash.svg");
    assert_eq!(Icons::Trash2.path(), "icons/trash-2.svg");
}

#[test]
fn locale_shows_its_name_or_its_identifier() {
    let named = Locale::new("zh-CN", Some("中文（中国）".to_string()));
    assert_eq!(named.id(), "zh-CN");
    assert_eq!(named.to_string(), "中文（中国）");
    let bare = Locale::new("tlh", None);
    assert_eq!(bare.to_string(), "tlh");
    assert!(bare.is_selected("tlh"));
    assert!(!bare.is_selected("en"));
    assert_eq!(ChangeLocale("en".to_string()), ChangeLocale("en".to_string()));
}

fn languages() -> Vec<Language> {
    vec![
        Language::new("en", "English"),
        Language::new("zh-Hans", "Chinese"),
        Language::new("fr", "French"),
        Language::new("zh-Hans", "Chinese (again)"),
    ]
}

#[test]
fn position_is_that_of_the_first_language_with_the_code() {
    let list = languages();
    assert_eq!(position_of(&list, "en"), Some(0));
    assert_eq!(position_of(&list, "zh-Hans"), Some(1));
    assert_eq!(position_of(&list, "fr"), Some(2));
    assert_eq!(position_of(&list, "de"), None);
    assert_eq!(position_of(&list, "EN"), None);
    assert_eq!(position_of(&Vec::new(), "en"), None);
}

#[test]
fn search_finds_an_entry_by_name_or_code_whatever_the_case() {
    let item = LanguageItem::new(Language::new("zh-Hans", "Chinese"), "Chinesisch (vereinfacht)");
    assert_eq!(item.title(), "Chinesisch (vereinfacht)");
    assert_eq!(item.value().code, "zh-Hans");
    assert_eq!(item.value().name, "Chinese");
    assert!(item.matches(""));
    assert!(item.matches("chin"));
    assert!(item.matches("CHINESE"));
    assert!(item.matches("Vereinfacht"));
    assert!(item.matches("ZH-HANS"));
    assert!(item.matches("hans"));
    assert!(item.matches("nese"));
    assert!(!item.matches("english"));
    assert!(!item.matches("chinese "));
    assert!(!item.matches("zh_hans"));
    let upper = LanguageItem::new(Language::new("DE", "GERMAN"), "ÄGYPTISCH");
    assert!(upper.matches("ägypt"));
    assert!(upper.matches("german"));
    assert!(upper.matches("de"));
}

#[test]
fn menu_checks_the_chosen_model() {
    let models = vec!["translategemma:12b".to_string(), "translategemma:4b".to_string()];
    assert_eq!(
        model_menu(&models, Some("translategemma:4b".to_string())),
        vec![
            ModelEntry { name: "translategemma:12b".to_string(), checked: false },
            ModelEntry { name: "translategemma:4b".to_string(), checked: true },
        ]
    );
    assert_eq!(
        model_menu(&models, None),
        vec![
            ModelEntry { name: "translategemma:12b".to_string(), checked: false },
            ModelEntry { name: "translategemma:4b".to_string(), checked: false },
        ]
    );
    assert_eq!(
        model_menu(&models, Some("llama3".to_string())),
        vec![
            ModelEntry { name: "translategemma:12b".to_string(), checked: false },
            ModelEntry { name: "translategemma:4b".to_string(), checked: false },
        ]
    );
    assert!(model_menu(&Vec::new(), Some("x".to_string())).is_empty());
}
