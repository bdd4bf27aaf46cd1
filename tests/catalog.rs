use localized_catalog::catalog::{copy_texts, Catalog, Language, LocalizedText};

fn text(language: Language, s: &str) -> LocalizedText {
    LocalizedText { language, text: s.to_string() }
}

#[test]
fn new_catalog_is_empty() {
    let c = Catalog::new();
    assert_eq!(c.len(), 0);
    assert!(c.get(&"Earth".to_string()).is_none());
}

#[test]
fn present_key_returns_stored_texts() {
    let mut c = Catalog::new();
    c.insert("Venus".to_string(), vec![text(Language::English, "hot"), text(Language::Italian, "caldo")]);
    c.insert("Moon".to_string(), vec![text(Language::Japanese, "月")]);
    let got = c.get(&"Venus".to_string()).expect("Venus is present");
    assert_eq!(got.len(), 2);
    assert_eq!(got[0].language, Language::English);
    assert_eq!(got[0].text, "hot");
    assert_eq!(got[1].language, Language::Italian);
    assert_eq!(got[1].text, "caldo");
    let moon = c.get(&"Moon".to_string()).expect("Moon is present");
    assert_eq!(moon.len(), 1);
    assert_eq!(moon[0].text, "月");
}

#[test]
fn absent_key_returns_none() {
    let mut c = Catalog::new();
    c.insert("Venus".to_string(), vec![text(Language::English, "hot")]);
    assert!(c.get(&"Mars".to_string()).is_none());
    assert!(c.get(&"venus".to_string()).is_none());
    assert!(c.get(&String::new()).is_none());
}

#[test]
fn inserting_a_key_twice_keeps_one_entry() {
    let mut c = Catalog::new();
    c.insert("Venus".to_string(), vec![text(Language::English, "first")]);
    c.insert("Mars".to_string(), vec![text(Language::English, "red")]);
    c.insert("Venus".to_string(), vec![text(Language::Spanish, "segundo")]);
    assert_eq!(c.len(), 2);
    let got = c.get(&"Venus".to_string()).expect("Venus is present");
    assert_eq!(got.len(), 1);
    assert_eq!(got[0].language, Language::Spanish);
    assert_eq!(got[0].text, "segundo");
    assert_eq!(c.get(&"Mars".to_string()).expect("Mars is present")[0].text, "red");
}

#[test]
fn copy_texts_keeps_order_and_content() {
    let texts = vec![text(Language::English, "a"), text(Language::Spanish, "b"), text(Language::Japanese, "c")];
    let copy = copy_texts(&texts);
    assert_eq!(copy.len(), 3);
    for i in 0..3 {
        assert_eq!(copy[i].language, texts[i].language);
        assert_eq!(copy[i].text, texts[i].text);
    }
    assert!(copy_texts(&Vec::new()).is_empty());
}

#[test]
fn localized_text_copy_is_equal() {
    let t = text(Language::Italian, "ciao");
    let c = t.copy();
    assert_eq!(c.language, Language::Italian);
    assert_eq!(c.text, "ciao");
}
