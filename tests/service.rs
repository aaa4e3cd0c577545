use oxide::model::{Chat, Text};
use oxide::repository::{
    authenticate_user, create_empty_chat, create_user, get_all_users, get_chats_for_user,
    get_texts_for_chat, get_user_for_id, send_text_to_user, Store,
};
use oxide::model::UserRecord;
use oxide::service::{
    create_chat_reply, login_reply, send_text_reply, signup_creates, signup_reply, OxideService,
    RpcStatus, StoreError,
};

fn s(v: &str) -> String {
    v.to_string()
}

#[test]
fn signup_and_login_scenario() {
    let mut svc = OxideService::new();
    assert!(svc.signup_user(&s("alice"), &s("pw1")).logged_in);
    assert!(!svc.signup_user(&s("alice"), &s("pw2")).logged_in);
    assert!(svc.login_user(&s("alice"), &s("pw1")).logged_in);
    assert!(!svc.login_user(&s("alice"), &s("pw2")).logged_in);
}

#[test]
fn chat_and_text_scenario() {
    let mut svc = OxideService::new();
    let chat = svc.create_new_chat(&s("alice"), &s("bob")).ok().unwrap();
    assert_eq!(chat.participant_ids, vec![s("alice"), s("bob")]);
    let sent = svc.send_text_to_user(&chat.id, &s("hi"), &s("alice"));
    assert_eq!(sent.text, "sent");
    let texts = svc.fetch_texts_for_chat(&chat.id);
    assert_eq!(texts.len(), 1);
    assert_eq!(texts[0].content, "hi");
    assert_eq!(texts[0].from, "alice");
    assert_eq!(texts[0].chat_id, chat.id);
}

#[test]
fn signup_then_login_with_same_credentials() {
    let mut svc = OxideService::new();
    for (u, p) in [("a", "x"), ("b", ""), ("", "y"), ("c d", "p w")] {
        assert!(svc.signup_user(&s(u), &s(p)).logged_in);
        assert!(svc.login_user(&s(u), &s(p)).logged_in);
    }
}

#[test]
fn signup_taken_keeps_password_and_store() {
    let mut svc = OxideService::new();
    assert!(svc.signup_user(&s("carol"), &s("first")).logged_in);
    assert!(!svc.signup_user(&s("carol"), &s("second")).logged_in);
    assert_eq!(svc.store.users.len(), 1);
    assert_eq!(svc.store.users[0].password, Some(s("first")));
    assert!(svc.login_user(&s("carol"), &s("first")).logged_in);
}

#[test]
fn login_wrong_password_or_unknown_user() {
    let mut svc = OxideService::new();
    svc.signup_user(&s("dave"), &s("secret"));
    assert!(!svc.login_user(&s("dave"), &s("Secret")).logged_in);
    assert!(!svc.login_user(&s("dave"), &s("")).logged_in);
    assert!(!svc.login_user(&s("erin"), &s("secret")).logged_in);
}

#[test]
fn login_fails_without_password_field() {
    let mut store = Store::new();
    store.insert_user(UserRecord { id: s("frank"), name: s("frank"), password: None });
    assert!(get_user_for_id(&store, &s("frank")));
    assert!(!authenticate_user(&store, &s("frank"), &s("")));
}

#[test]
fn login_checks_first_matching_document() {
    let mut store = Store::new();
    create_user(&mut store, &s("gina"), &s("one"));
    create_user(&mut store, &s("gina"), &s("two"));
    assert!(authenticate_user(&store, &s("gina"), &s("one")));
    assert!(!authenticate_user(&store, &s("gina"), &s("two")));
}

#[test]
fn create_chat_keeps_participant_order() {
    let mut svc = OxideService::new();
    let c1 = svc.create_new_chat(&s("zed"), &s("amy")).ok().unwrap();
    assert_eq!(c1.participant_ids, vec![s("zed"), s("amy")]);
    let c2 = svc.create_new_chat(&s("amy"), &s("amy")).ok().unwrap();
    assert_eq!(c2.participant_ids, vec![s("amy"), s("amy")]);
    assert_eq!(svc.store.chats.len(), 2);
    assert!(svc.store.chats[0].text_ids.is_empty());
    assert_eq!(svc.store.chats[0].id, c1.id);
}

#[test]
fn chat_ids_are_decimal_u32() {
    let mut store = Store::new();
    for _ in 0..20 {
        let id = create_empty_chat(&mut store, &s("a"), &s("b"));
        assert!(!id.is_empty());
        assert!(id.chars().all(|c| c.is_ascii_digit()));
        assert!(id.parse::<u32>().is_ok());
        assert_eq!(id.parse::<u32>().unwrap().to_string(), id);
    }
}

#[test]
fn text_ids_are_decimal_u32() {
    let mut store = Store::new();
    let id = send_text_to_user(&mut store, &s("c"), &s("x"), &s("a"));
    assert!(id.parse::<u32>().is_ok());
    assert_eq!(store.texts[0].id, id);
    assert_eq!(store.texts[0].chat_id, "c");
}

#[test]
fn fetched_texts_are_all_texts_of_the_chat() {
    let mut svc = OxideService::new();
    svc.send_text_to_user(&s("c1"), &s("hello"), &s("a"));
    svc.send_text_to_user(&s("c2"), &s("other"), &s("b"));
    svc.send_text_to_user(&s("c1"), &s("again"), &s("b"));
    let texts: Vec<Text> = svc.fetch_texts_for_chat(&s("c1"));
    assert_eq!(texts.len(), 2);
    assert_eq!(texts[0].content, "hello");
    assert_eq!(texts[0].from, "a");
    assert_eq!(texts[1].content, "again");
    assert!(texts.iter().all(|t| t.chat_id == "c1"));
    assert!(svc.fetch_texts_for_chat(&s("c3")).is_empty());
}

#[test]
fn fetched_chats_are_exactly_those_with_user() {
    let mut svc = OxideService::new();
    let ab = svc.create_new_chat(&s("a"), &s("b")).ok().unwrap();
    let bc = svc.create_new_chat(&s("b"), &s("c")).ok().unwrap();
    let ca = svc.create_new_chat(&s("c"), &s("a")).ok().unwrap();
    let for_a = svc.fetch_chats_for_user(&s("a"));
    let ids: Vec<String> = for_a.iter().map(|c| c.id.clone()).collect();
    assert_eq!(ids, vec![ab.id.clone(), ca.id.clone()]);
    assert_eq!(for_a[1].participant_ids, vec![s("c"), s("a")]);
    let for_b = svc.fetch_chats_for_user(&s("b"));
    assert_eq!(for_b.len(), 2);
    assert_eq!(for_b[1].id, bc.id);
    assert!(svc.fetch_chats_for_user(&s("d")).is_empty());
}

#[test]
fn repository_chats_for_user() {
    let mut store = Store::new();
    create_empty_chat(&mut store, &s("x"), &s("y"));
    let chats: Vec<Chat> = get_chats_for_user(&store, &s("y"));
    assert_eq!(chats.len(), 1);
    assert!(chats[0].has_participant(&s("x")));
    assert!(!chats[0].has_participant(&s("z")));
    assert_eq!(get_texts_for_chat(&store, &chats[0].id).len(), 0);
}

#[test]
fn fetch_users_gives_id_and_name() {
    let mut svc = OxideService::new();
    assert!(svc.fetch_users().is_empty());
    svc.signup_user(&s("ann"), &s("1"));
    svc.signup_user(&s("ben"), &s("2"));
    let users = svc.fetch_users();
    assert_eq!(users.len(), 2);
    assert_eq!(users[0].id, "ann");
    assert_eq!(users[0].name, "ann");
    assert_eq!(users[1].id, "ben");
    assert_eq!(get_all_users(&svc.store).len(), 2);
}

#[test]
fn user_lookup() {
    let mut store = Store::new();
    assert!(!get_user_for_id(&store, &s("a")));
    assert!(create_user(&mut store, &s("a"), &s("p")));
    assert!(get_user_for_id(&store, &s("a")));
    assert!(!get_user_for_id(&store, &s("b")));
    assert_eq!(store.find_user(&s("a")), Some(0));
    assert_eq!(store.find_user(&s("b")), None);
}

#[test]
fn login_reply_store_error_is_failed_login() {
    assert!(login_reply(Ok(true)).logged_in);
    assert!(!login_reply(Ok(false)).logged_in);
    assert!(!login_reply(Err(StoreError::Unavailable)).logged_in);
}

#[test]
fn signup_fails_open_on_lookup_error() {
    assert!(!signup_creates(&Ok(true)));
    assert!(signup_creates(&Ok(false)));
    assert!(signup_creates(&Err(StoreError::Unavailable)));
    assert!(signup_reply(Ok(true)).logged_in);
    assert!(!signup_reply(Err(StoreError::Unavailable)).logged_in);
}

#[test]
fn create_chat_reply_failure_is_invalid_argument() {
    match create_chat_reply(Err(StoreError::Unavailable), &s("a"), &s("b")) {
        Err(RpcStatus::InvalidArgument(m)) => assert_eq!(m, "could not create chat"),
        Ok(_) => panic!("expected an error"),
    }
    match create_chat_reply(Ok(s("42")), &s("a"), &s("b")) {
        Ok(info) => {
            assert_eq!(info.id, "42");
            assert_eq!(info.participant_ids, vec![s("a"), s("b")]);
        }
        Err(_) => panic!("expected a chat"),
    }
}

#[test]
fn send_text_reply_always_acknowledges() {
    assert_eq!(send_text_reply(Ok(())).text, "sent");
    assert_eq!(send_text_reply(Err(StoreError::Unavailable)).text, "sent");
}
