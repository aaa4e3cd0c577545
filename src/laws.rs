use vstd::prelude::*;
use crate::model::{ChatView, TextView, UserRecordView};
use crate::repository::{
    chats_of, is_first_user, new_text, password_accepted, texts_of, user_exists, StoreView,
};
use crate::service::signup_result;

verus! {

/// A username that is not yet registered can log in, right after signing up,
/// with the password it signed up with.
pub proof fn lemma_signup_then_login(s: StoreView, username: Seq<char>, password: Seq<char>)
    requires
        !user_exists(s.users, username),
    ensures
        signup_result(s, username, password).1,
        password_accepted(signup_result(s, username, password).0.users, username, password),
{
    let users = signup_result(s, username, password).0.users;
    let i = s.users.len() as int;
    assert(users[i].id == username);
    assert forall|j: int| 0 <= j < i implies users[j].id != username by {
        assert(users[j] == s.users[j]);
    }
    assert(is_first_user(users, username, i));
}

/// Signing up under a username that is taken logs nobody in and leaves the
/// store, and with it every stored password, as it was.
pub proof fn lemma_signup_taken(s: StoreView, username: Seq<char>, password: Seq<char>)
    requires
        user_exists(s.users, username),
    ensures
        !signup_result(s, username, password).1,
        signup_result(s, username, password).0 == s,
        forall|q: Seq<char>|
            password_accepted(signup_result(s, username, password).0.users, username, q)
                == password_accepted(s.users, username, q),
{
}

/// Logging in with any password other than the stored one fails.
pub proof fn lemma_wrong_password(
    users: Seq<UserRecordView>,
    username: Seq<char>,
    stored: Seq<char>,
    given: Seq<char>,
)
    requires
        exists|i: int| is_first_user(users, username, i) && users[i].password == Some(stored),
        given != stored,
    ensures
        !password_accepted(users, username, given),
{
    let i = choose|i: int| is_first_user(users, username, i) && users[i].password == Some(stored);
    if password_accepted(users, username, given) {
        let k = choose|k: int| is_first_user(users, username, k) && users[k].password == Some(given);
        assert(k == i);
    }
}

/// Logging in with a password other than the one a fresh signup stored fails.
pub proof fn lemma_signup_then_wrong_login(
    s: StoreView,
    username: Seq<char>,
    password: Seq<char>,
    given: Seq<char>,
)
    requires
        !user_exists(s.users, username),
        given != password,
    ensures
        !password_accepted(signup_result(s, username, password).0.users, username, given),
{
    let users = signup_result(s, username, password).0.users;
    let i = s.users.len() as int;
    assert forall|j: int| 0 <= j < i implies users[j].id != username by {
        assert(users[j] == s.users[j]);
    }
    assert(is_first_user(users, username, i));
    lemma_wrong_password(users, username, password, given);
}

/// A filtered sequence holds exactly the elements of the sequence that meet
/// the predicate.
pub proof fn lemma_filter_exact<A>(s: Seq<A>, pred: spec_fn(A) -> bool)
    ensures
        forall|x: A| s.filter(pred).contains(x) <==> (s.contains(x) && pred(x)),
{
    broadcast use vstd::seq_lib::group_filter_ensures;

    assert forall|x: A| s.filter(pred).contains(x) <==> (s.contains(x) && pred(x)) by {
        if s.filter(pred).contains(x) {
            s.lemma_filter_contains_rev(pred, x);
            let k = choose|k: int| 0 <= k < s.filter(pred).len() && s.filter(pred)[k] == x;
            assert(pred(s.filter(pred)[k]));
        }
        if s.contains(x) && pred(x) {
            let k = choose|k: int| 0 <= k < s.len() && s[k] == x;
            assert(s.filter(pred).contains(s[k]));
        }
    }
}

/// The texts fetched for a chat are exactly the stored texts of that chat.
pub proof fn lemma_texts_of_exact(texts: Seq<TextView>, chat_id: Seq<char>)
    ensures
        forall|t: TextView|
            texts_of(texts, chat_id).contains(t) <==> (texts.contains(t) && t.chat_id == chat_id),
{
    lemma_filter_exact(texts, |t: TextView| t.chat_id == chat_id);
}

/// After a text is sent to a chat, fetching that chat's texts yields it, with
/// its content and sender, together with every text the chat held before.
pub proof fn lemma_sent_text_is_fetched(
    before: Seq<TextView>,
    after: Seq<TextView>,
    chat_id: Seq<char>,
    content: Seq<char>,
    from: Seq<char>,
)
    requires
        exists|id: Seq<char>| after == before.push(new_text(id, chat_id, content, from)),
    ensures
        exists|t: TextView|
            texts_of(after, chat_id).contains(t) && t.content == content && t.from == from
                && t.chat_id == chat_id,
        forall|t: TextView|
            before.contains(t) && t.chat_id == chat_id ==> texts_of(after, chat_id).contains(t),
{
    let id = choose|id: Seq<char>| after == before.push(new_text(id, chat_id, content, from));
    let sent = new_text(id, chat_id, content, from);
    lemma_texts_of_exact(after, chat_id);
    assert(after[before.len() as int] == sent);
    assert(after.contains(sent));
    assert forall|t: TextView| before.contains(t) && t.chat_id == chat_id implies texts_of(
        after,
        chat_id,
    ).contains(t) by {
        let k = choose|k: int| 0 <= k < before.len() && before[k] == t;
        assert(after[k] == t);
    }
}

/// The chats fetched for a user are exactly the stored chats that list the
/// user among their participants, at any position.
pub proof fn lemma_chats_of_exact(chats: Seq<ChatView>, user: Seq<char>)
    ensures
        forall|c: ChatView|
            chats_of(chats, user).contains(c) <==> (chats.contains(c)
                && c.participant_ids.contains(user)),
{
    lemma_filter_exact(chats, |c: ChatView| c.participant_ids.contains(user));
}

} // verus!
