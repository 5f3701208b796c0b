use spoon_comment_viewer::comment::CommentType;
use spoon_comment_viewer::database::{Database, ListenerEntity};

#[test]
fn database_test01() {
    let mut db = Database::new();

    let mut entity1 = ListenerEntity::new(1, "Mike".to_string(), 2, 3);
    let entity2 = ListenerEntity::new(10, "Lisa".to_string(), 20, 30);
    db.insert(entity1.clone());
    db.insert(entity2.clone());

    assert_eq!(vec![entity1.clone(), entity2.clone()], db.select_all());
    assert_eq!(None, db.select_by_id(0));
    assert_eq!(Some(entity1.clone()), db.select_by_id(1));
    assert_eq!(Some(entity2.clone()), db.select_by_id(10));
    println!("{:?}", db.select_all());

    entity1.name = "Bob".to_string();
    entity1.visit_count *= 100;
    entity1.stay_duration *= 100;
    db.update(entity1.clone());
    assert_eq!(vec![entity1.clone(), entity2.clone()], db.select_all());
    assert_eq!(Some(entity1), db.select_by_id(1));
    assert_eq!(Some(entity2), db.select_by_id(10));
    println!("{:?}", db.select_all());
}

#[test]
fn database_keeps_id_order() {
    let mut db = Database::new();
    db.insert(ListenerEntity::new(10, "ten".to_string(), 1, 0));
    db.insert(ListenerEntity::new(1, "one".to_string(), 1, 0));
    db.insert(ListenerEntity::new(5, "five".to_string(), 1, 0));
    let ids: Vec<usize> = db.select_all().into_iter().map(|e| e.id).collect();
    assert_eq!(ids, vec![1, 5, 10]);
}

#[test]
fn database_update_without_row_is_a_noop() {
    let mut db = Database::new();
    db.insert(ListenerEntity::new(1, "a".to_string(), 1, 0));
    db.update(ListenerEntity::new(2, "b".to_string(), 9, 9));
    let all = db.select_all();
    assert_eq!(all.len(), 1);
    assert_eq!(all[0].name, "a");
}

#[test]
fn comment_type_by_class_suffix() {
    assert!(CommentType::new(Some("chat-list-item message".to_string())) == CommentType::Message);
    assert!(CommentType::new(Some("chat-list-item combo".to_string())) == CommentType::Combo);
    assert!(CommentType::new(Some("chat-list-item like".to_string())) == CommentType::Like);
    assert!(CommentType::new(Some("chat-list-item present".to_string())) == CommentType::Present);
    assert!(CommentType::new(Some("chat-list-item guide".to_string())) == CommentType::Guide);
    assert!(CommentType::new(Some("chat-list-item block".to_string())) == CommentType::Block);
    assert!(CommentType::new(Some("chat-list-itemmessage".to_string())) == CommentType::Unknown);
    assert!(CommentType::new(Some(String::new())) == CommentType::Unknown);
    assert!(CommentType::new(None) == CommentType::Unknown);
}
