use thesis_portal::views::theses::post::{
    KeywordEntity, KeywordInput, KeywordInputMsg, Keywords, KeywordsMsg,
};

fn typed(list: &mut Keywords, raw: &str) {
    list.update(KeywordsMsg::Input(KeywordInputMsg::Input(raw.to_string())));
}

fn click(list: &mut Keywords) -> (bool, Option<Vec<String>>) {
    list.update(KeywordsMsg::Input(KeywordInputMsg::Submit))
}

#[test]
fn keywords_starts_empty() {
    let list = Keywords::create();
    assert_eq!(list.len(), 0);
    let shown = list.view();
    assert!(shown.entities.is_empty());
    assert_eq!(shown.input.value, "");
    assert!(shown.input.disabled);
}

#[test]
fn keywords_typing_changes_only_the_candidate() {
    let mut list = Keywords::create();
    assert_eq!(
        list.update(KeywordsMsg::Input(KeywordInputMsg::Input("logic".to_string()))),
        (true, None)
    );
    assert_eq!(list.len(), 0);
    let shown = list.view();
    assert_eq!(shown.input.value, "logic");
    assert!(!shown.input.disabled);
}

#[test]
fn keywords_click_appends_the_candidate_and_clears_it() {
    let mut list = Keywords::create();
    typed(&mut list, "logic");
    assert_eq!(click(&mut list), (true, Some(vec!["logic".to_string()])));
    assert_eq!(list.vals(), &vec!["logic".to_string()]);
    assert_eq!(list.view().input.value, "");
    assert!(list.view().input.disabled);
}

#[test]
fn keywords_no_keyword_twice() {
    let mut list = Keywords::create();
    list.update(KeywordsMsg::Push("logic".to_string()));
    list.update(KeywordsMsg::Push("proof".to_string()));
    assert_eq!(
        list.update(KeywordsMsg::Push("logic".to_string())),
        (true, Some(vec!["logic".to_string(), "proof".to_string()]))
    );
    typed(&mut list, "proof");
    assert!(list.view().input.disabled);
    assert!(!list.validate(&"proof".to_string()));
    // a click on the switched-off button changes nothing
    assert_eq!(click(&mut list), (true, Some(vec!["logic".to_string(), "proof".to_string()])));
    assert_eq!(list.view().input.value, "proof");
    // keys are exact: another case is another keyword
    assert!(list.validate(&"Proof".to_string()));
    list.update(KeywordsMsg::Push("Proof".to_string()));
    assert_eq!(list.vals(), &vec!["logic".to_string(), "proof".to_string(), "Proof".to_string()]);
}

#[test]
fn keywords_empty_keyword_is_not_valid() {
    let mut list = Keywords::create();
    assert!(!list.validate(&String::new()));
    assert_eq!(list.update(KeywordsMsg::Push(String::new())), (true, Some(vec![])));
    assert_eq!(click(&mut list), (true, Some(vec![])));
    assert_eq!(list.len(), 0);
    // blanks are characters like any other
    assert!(list.validate(&" ".to_string()));
}

#[test]
fn keywords_remove_keeps_the_order() {
    let mut list = Keywords::create();
    for k in ["a", "b", "c", "d"] {
        list.update(KeywordsMsg::Push(k.to_string()));
    }
    assert_eq!(
        list.update(KeywordsMsg::Remove(1)),
        (true, Some(vec!["a".to_string(), "c".to_string(), "d".to_string()]))
    );
    list.update(KeywordsMsg::Remove(2));
    assert_eq!(list.vals(), &vec!["a".to_string(), "c".to_string()]);
    list.update(KeywordsMsg::Remove(0));
    list.update(KeywordsMsg::Remove(0));
    assert_eq!(list.len(), 0);
    // what was removed may come back, at the end
    list.update(KeywordsMsg::Push("a".to_string()));
    assert_eq!(list.vals(), &vec!["a".to_string()]);
}

#[test]
fn keywords_reset_empties_list_and_candidate() {
    let mut list = Keywords::create();
    list.update(KeywordsMsg::Push("a".to_string()));
    list.update(KeywordsMsg::Push("b".to_string()));
    typed(&mut list, "c");
    assert_eq!(list.update(KeywordsMsg::New), (true, Some(vec![])));
    assert_eq!(list.len(), 0);
    let shown = list.view();
    assert!(shown.entities.is_empty());
    assert_eq!(shown.input.value, "");
    assert_eq!(list.update(KeywordsMsg::New), (true, Some(vec![])));
    assert_eq!(list.len(), 0);
}

#[test]
fn keywords_push_clears_the_candidate_only_when_it_appends() {
    let mut list = Keywords::create();
    typed(&mut list, "draft");
    list.update(KeywordsMsg::Push("logic".to_string()));
    assert_eq!(list.view().input.value, "");
    typed(&mut list, "draft");
    list.update(KeywordsMsg::Push("logic".to_string()));
    assert_eq!(list.view().input.value, "draft");
}

#[test]
fn keywords_every_line_removes_its_own_place() {
    let mut list = Keywords::create();
    for k in ["a", "b", "c"] {
        list.update(KeywordsMsg::Push(k.to_string()));
    }
    let shown = list.view();
    assert_eq!(
        shown.entities,
        vec![
            KeywordEntity { val: "a".to_string(), delete: 0 },
            KeywordEntity { val: "b".to_string(), delete: 1 },
            KeywordEntity { val: "c".to_string(), delete: 2 },
        ]
    );
    assert_eq!(KeywordEntity::create(&"z".to_string(), 9), KeywordEntity { val: "z".to_string(), delete: 9 });
}

#[test]
fn keywords_snapshot_is_a_copy() {
    let mut list = Keywords::create();
    list.update(KeywordsMsg::Push("a".to_string()));
    let copy = list.snapshot();
    list.update(KeywordsMsg::New);
    assert_eq!(copy, vec!["a".to_string()]);
    assert!(list.snapshot().is_empty());
}

#[test]
fn keywords_entry_field() {
    let mut field = KeywordInput::create();
    assert_eq!(field.view(false).value, "");
    assert!(field.update(KeywordInputMsg::Input("logic".to_string())));
    assert_eq!(field.view(true).value, "logic");
    assert!(!field.view(true).disabled);
    assert!(field.view(false).disabled);
    assert!(field.update(KeywordInputMsg::Submit));
    assert_eq!(field.view(true).value, "");
    assert_eq!(KeywordInput::default(), KeywordInput::create());
}
