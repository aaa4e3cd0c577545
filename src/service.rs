use vstd::prelude::*;
use crate::ids::decimal;
use crate::model::{copy_strings, strings_view, ChatView, Text, User, UserRecordView};
use crate::repository::{
    chats_of, create_empty_chat, create_user, get_all_users, get_chats_for_user,
    chats_view, get_texts_for_chat, get_user_for_id, new_chat, new_text, new_user, password_accepted,
    public_user, public_users_view, texts_of, texts_view, user_exists, Store, StoreView,
};

verus! {

broadcast use vstd::string::to_string_from_display_ensures_for_str;

/// Reply to a signup or a login.
pub struct LoginInfo {
    pub logged_in: bool,
}

/// Acknowledgement of a sent text.
pub struct TextSent {
    pub text: String,
}

/// A chat as the service shows it: its id and its participants.
pub struct ChatInfo {
    pub id: String,
    pub participant_ids: Vec<String>,
}

pub ghost struct ChatInfoView {
    pub id: Seq<char>,
    pub participant_ids: Seq<Seq<char>>,
}

impl View for ChatInfo {
    type V = ChatInfoView;

    open spec fn view(&self) -> ChatInfoView {
        ChatInfoView { id: self.id@, participant_ids: strings_view(self.participant_ids@) }
    }
}

pub open spec fn chat_info(c: ChatView) -> ChatInfoView {
    ChatInfoView { id: c.id, participant_ids: c.participant_ids }
}

pub open spec fn chat_infos_view(v: Seq<ChatInfo>) -> Seq<ChatInfoView> {
    v.map_values(|c: ChatInfo| c@)
}

/// The acknowledgement text of a send.
pub open spec fn sent_text() -> Seq<char> {
    seq!['s', 'e', 'n', 't']
}

/// What a signup does to the store, and whether it logs the user in: an id
/// already taken changes nothing and logs nobody in.
pub open spec fn signup_result(s: StoreView, username: Seq<char>, password: Seq<char>) -> (
    StoreView,
    bool,
) {
    if user_exists(s.users, username) {
        (s, false)
    } else {
        (StoreView { users: s.users.push(new_user(username, password)), ..s }, true)
    }
}

/// A failure to reach or use the document store.
pub enum StoreError {
    Unavailable,
}

/// A protocol-level error of the service.
pub enum RpcStatus {
    InvalidArgument(String),
}

/// The message that comes with a failed chat creation.
pub open spec fn chat_failure_message() -> Seq<char> {
    seq![
        'c', 'o', 'u', 'l', 'd', ' ', 'n', 'o', 't', ' ', 'c', 'r', 'e', 'a', 't', 'e', ' ',
        'c', 'h', 'a', 't',
    ]
}

/// Login reply for the outcome of an authentication: any store error
/// counts as a failed login.
pub fn login_reply(outcome: Result<bool, StoreError>) -> (r: LoginInfo)
    ensures
        r.logged_in == (outcome == Ok::<bool, StoreError>(true)),
{
    match outcome {
        Ok(ok) => LoginInfo { logged_in: ok },
        Err(_) => LoginInfo { logged_in: false },
    }
}

/// Whether signup goes on to create the user, given the outcome of the
/// existence check: only a user known to exist stops it, so a store error
/// lets it through.
pub fn signup_creates(lookup: &Result<bool, StoreError>) -> (r: bool)
    ensures
        r == !(*lookup == Ok::<bool, StoreError>(true)),
{
    match lookup {
        Ok(exists) => !*exists,
        Err(_) => true,
    }
}

/// Signup reply for the outcome of the creation: any store error counts as
/// a failed signup.
pub fn signup_reply(created: Result<bool, StoreError>) -> (r: LoginInfo)
    ensures
        r.logged_in == (created == Ok::<bool, StoreError>(true)),
{
    match created {
        Ok(ok) => LoginInfo { logged_in: ok },
        Err(_) => LoginInfo { logged_in: false },
    }
}

/// Chat creation reply: the new id with the two participants in request
/// order, or an invalid-argument status when the store failed.
pub fn create_chat_reply(outcome: Result<String, StoreError>, from: &String, to: &String) -> (r:
    Result<ChatInfo, RpcStatus>)
    ensures
        match (outcome, r) {
            (Ok(id), Ok(info)) => info@ == (ChatInfoView { id: id@, participant_ids: seq![from@, to@] }),
            (Err(_), Err(RpcStatus::InvalidArgument(m))) => m@ == chat_failure_message(),
            _ => false,
        },
{
    match outcome {
        Ok(id) => {
            let participants: Vec<String> = vec![from.clone(), to.clone()];
            assert(strings_view(participants@) =~= seq![from@, to@]);
            Ok(ChatInfo { id, participant_ids: participants })
        },
        Err(_) => {
            let m = "could not create chat".to_string();
            proof {
                reveal_strlit("could not create chat");
            }
            assert(m@ =~= chat_failure_message());
            Err(RpcStatus::InvalidArgument(m))
        },
    }
}

/// Send reply: the same acknowledgement whatever the store did.
pub fn send_text_reply(outcome: Result<(), StoreError>) -> (r: TextSent)
    ensures
        r.text@ == sent_text(),
{
    let text = "sent".to_string();
    proof {
        reveal_strlit("sent");
    }
    assert(text@ =~= sent_text());
    TextSent { text }
}

/// The chat service: signup, login, chats and texts over one store.
pub struct OxideService {
    pub store: Store,
}

impl OxideService {
    pub fn new() -> (r: OxideService)
        ensures
            r.store@.users.len() == 0,
            r.store@.chats.len() == 0,
            r.store@.texts.len() == 0,
    {
        OxideService { store: Store::new() }
    }

    /// Logs in when the user found by `username` holds exactly `password`.
    pub fn login_user(&self, username: &String, password: &String) -> (r: LoginInfo)
        ensures
            r.logged_in == password_accepted(self.store@.users, username@, password@),
    {
        let ok = crate::repository::authenticate_user(&self.store, username, password);
        login_reply(Ok(ok))
    }

    /// Registers `username` with `password` unless the id is taken.
    pub fn signup_user(&mut self, username: &String, password: &String) -> (r: LoginInfo)
        ensures
            (final(self).store@, r.logged_in) == signup_result(
                old(self).store@,
                username@,
                password@,
            ),
    {
        let lookup: Result<bool, StoreError> = Ok(get_user_for_id(&self.store, username));
        if signup_creates(&lookup) {
            let created = create_user(&mut self.store, username, password);
            assert(self.store@ == signup_result(old(self).store@, username@, password@).0);
            signup_reply(Ok(created))
        } else {
            LoginInfo { logged_in: false }
        }
    }

    /// Creates a chat between `from` and `to`, in that order.
    pub fn create_new_chat(&mut self, from: &String, to: &String) -> (r: Result<ChatInfo, RpcStatus>)
        ensures
            r is Ok,
            exists|n: u32| r->Ok_0@.id == decimal(n as nat),
            r->Ok_0@.participant_ids == seq![from@, to@],
            final(self).store@.chats == old(self).store@.chats.push(
                new_chat(r->Ok_0@.id, from@, to@),
            ),
            final(self).store@.users == old(self).store@.users,
            final(self).store@.texts == old(self).store@.texts,
    {
        let id = create_empty_chat(&mut self.store, from, to);
        create_chat_reply(Ok(id), from, to)
    }

    /// Stores a text from `from` in chat `chat_id`; the reply is always the
    /// same acknowledgement.
    pub fn send_text_to_user(&mut self, chat_id: &String, content: &String, from: &String) -> (r:
        TextSent)
        ensures
            r.text@ == sent_text(),
            exists|n: u32|
                final(self).store@.texts == old(self).store@.texts.push(
                    new_text(decimal(n as nat), chat_id@, content@, from@),
                ),
            final(self).store@.users == old(self).store@.users,
            final(self).store@.chats == old(self).store@.chats,
    {
        let id = crate::repository::send_text_to_user(&mut self.store, chat_id, content, from);
        let ghost n = choose|n: u32| id@ == decimal(n as nat);
        assert(self.store@.texts == old(self).store@.texts.push(
            new_text(decimal(n as nat), chat_id@, content@, from@),
        ));
        send_text_reply(Ok(()))
    }

    /// The texts of chat `chat_id`, in the order they are to be streamed.
    pub fn fetch_texts_for_chat(&self, chat_id: &String) -> (r: Vec<Text>)
        ensures
            texts_view(r@) == texts_of(self.store@.texts, chat_id@),
    {
        get_texts_for_chat(&self.store, chat_id)
    }

    /// The chats in which `user_id` takes part, in the order they are to be
    /// streamed.
    pub fn fetch_chats_for_user(&self, user_id: &String) -> (r: Vec<ChatInfo>)
        ensures
            chat_infos_view(r@) == chats_of(self.store@.chats, user_id@).map_values(
                |c: ChatView| chat_info(c),
            ),
    {
        let chats = get_chats_for_user(&self.store, user_id);
        let ghost found = chats_of(self.store@.chats, user_id@);
        let mut r: Vec<ChatInfo> = Vec::new();
        let mut i: usize = 0;
        while i < chats.len()
            invariant
                i <= chats.len(),
                chats_view(chats@) == found,
                chat_infos_view(r@) == found.subrange(0, i as int).map_values(
                    |c: ChatView| chat_info(c),
                ),
            decreases chats.len() - i,
        {
            let c = &chats[i];
            let ghost before = r@;
            let info = ChatInfo { id: c.id.clone(), participant_ids: copy_strings(&c.participant_ids) };
            assert(found[i as int] == c@);
            r.push(info);
            assert(chat_infos_view(r@) =~= chat_infos_view(before).push(info@));
            assert(found.subrange(0, i + 1) =~= found.subrange(0, i as int).push(found[i as int]));
            i = i + 1;
        }
        assert(found.subrange(0, i as int) =~= found);
        r
    }

    /// Every user, as id and name, in the order they are to be streamed.
    pub fn fetch_users(&self) -> (r: Vec<User>)
        ensures
            public_users_view(r@) == self.store@.users.map_values(
                |u: UserRecordView| public_user(u),
            ),
    {
        get_all_users(&self.store)
    }
}

} // verus!
