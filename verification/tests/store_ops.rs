use ai_trpg_engine::engine::Engine;

#[test]
fn save_then_load_round_trips() {
    let mut e = Engine::new();
    let msg = e.save_game("hero.json", "{\"hp\":10}");
    assert_eq!(msg, "存档已保存: hero.json");
    assert_eq!(e.load_game("hero.json"), Ok("{\"hp\":10}".to_string()));
}

#[test]
fn empty_content_round_trips() {
    let mut e = Engine::new();
    e.save_game("empty.json", "");
    assert_eq!(e.load_game("empty.json"), Ok(String::new()));
}

#[test]
fn non_ascii_names_round_trip_and_list() {
    let mut e = Engine::new();
    e.save_game("存档一.json", "甲");
    e.save_game("存档二.txt", "乙");
    assert_eq!(e.load_game("存档一.json"), Ok("甲".to_string()));
    assert_eq!(e.list_saves(), vec!["存档一.json".to_string()]);
}

#[test]
fn save_overwrites_existing_document() {
    let mut e = Engine::new();
    e.save_game("hero.json", "first");
    e.save_game("hero.json", "second");
    assert_eq!(e.load_game("hero.json"), Ok("second".to_string()));
    assert_eq!(e.list_saves(), vec!["hero.json".to_string()]);
}

#[test]
fn list_on_fresh_category_is_empty() {
    let e = Engine::new();
    assert_eq!(e.list_saves(), Vec::<String>::new());
    assert_eq!(e.list_worldlines(), Vec::<String>::new());
    assert_eq!(e.list_lorebooks(), Vec::<String>::new());
}

#[test]
fn list_keeps_only_json_names() {
    let mut e = Engine::new();
    e.save_game("a.json", "one");
    e.save_game("b.json", "two");
    e.save_game("c.txt", "three");
    assert_eq!(e.list_saves(), vec!["a.json".to_string(), "b.json".to_string()]);
}

#[test]
fn delete_then_load_is_not_found() {
    let mut e = Engine::new();
    e.save_game("gone.json", "data");
    let msg = e.delete_save("gone.json").expect("the document was stored");
    assert_eq!(msg, "存档已删除: gone.json");
    assert_eq!(e.load_game("gone.json"), Err("文件不存在: gone.json".to_string()));
}

#[test]
fn operations_on_one_name_leave_others_alone() {
    let mut e = Engine::new();
    e.save_game("keep.json", "kept");
    e.save_game("other.json", "first");
    e.save_game("other.json", "second");
    assert_eq!(e.load_game("keep.json"), Ok("kept".to_string()));
    e.delete_save("other.json").expect("stored");
    assert_eq!(e.load_game("keep.json"), Ok("kept".to_string()));
}

#[test]
fn delete_of_missing_document_fails() {
    let mut e = Engine::new();
    assert_eq!(e.delete_save("never.json"), Err("文件不存在: never.json".to_string()));
}

#[test]
fn load_of_missing_document_fails() {
    let e = Engine::new();
    assert_eq!(e.load_game("absent.json"), Err("文件不存在: absent.json".to_string()));
}

#[test]
fn categories_are_independent() {
    let mut e = Engine::new();
    e.save_game("same.json", "a save");
    e.save_worldline("same.json", "a worldline");
    e.save_lorebook("same.json", "a lorebook");
    assert_eq!(e.load_game("same.json"), Ok("a save".to_string()));
    assert_eq!(e.load_worldline("same.json"), Ok("a worldline".to_string()));
    assert_eq!(e.load_lorebook("same.json"), Ok("a lorebook".to_string()));
    e.delete_worldline("same.json").expect("stored");
    assert_eq!(e.load_game("same.json"), Ok("a save".to_string()));
    assert!(e.load_worldline("same.json").is_err());
}

#[test]
fn worldline_messages_embed_the_name() {
    let mut e = Engine::new();
    assert_eq!(e.save_worldline("w.json", "x"), "世界线已保存: w.json");
    assert_eq!(e.delete_worldline("w.json"), Ok("世界线已删除: w.json".to_string()));
}

#[test]
fn lorebook_messages_embed_the_name() {
    let mut e = Engine::new();
    assert_eq!(e.save_lorebook("l.json", "x"), "Lorebook 已保存: l.json");
    assert_eq!(e.delete_lorebook("l.json"), Ok("Lorebook 已删除: l.json".to_string()));
}

#[test]
fn export_is_load_and_import_is_save() {
    let mut e = Engine::new();
    let msg = e.import_worldline("w.json", "{\"era\":\"tang\"}");
    assert_eq!(msg, "世界线已保存: w.json");
    assert_eq!(e.export_worldline("w.json"), Ok("{\"era\":\"tang\"}".to_string()));
    assert_eq!(e.export_worldline("other.json"), Err("文件不存在: other.json".to_string()));
}
