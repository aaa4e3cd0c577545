use vstd::prelude::*;
use crate::ids::{decimal, id_string, random_u32};
use crate::model::{
    strings_view, Chat, ChatView, Text, TextView, User, UserRecord, UserRecordView,
    UserView,
};

verus! {

/// The three document collections: users, chats and texts, each in order
/// of insertion.
pub struct Store {
    pub users: Vec<UserRecord>,
    pub chats: Vec<Chat>,
    pub texts: Vec<Text>,
}

pub ghost struct StoreView {
    pub users: Seq<UserRecordView>,
    pub chats: Seq<ChatView>,
    pub texts: Seq<TextView>,
}

pub open spec fn users_view(v: Seq<UserRecord>) -> Seq<UserRecordView> {
    v.map_values(|u: UserRecord| u@)
}

pub open spec fn chats_view(v: Seq<Chat>) -> Seq<ChatView> {
    v.map_values(|c: Chat| c@)
}

pub open spec fn texts_view(v: Seq<Text>) -> Seq<TextView> {
    v.map_values(|t: Text| t@)
}

pub open spec fn public_users_view(v: Seq<User>) -> Seq<UserView> {
    v.map_values(|u: User| u@)
}

impl View for Store {
    type V = StoreView;

    open spec fn view(&self) -> StoreView {
        StoreView {
            users: users_view(self.users@),
            chats: chats_view(self.chats@),
            texts: texts_view(self.texts@),
        }
    }
}

/// `i` is the first user document whose id is `id`: the one a lookup by id
/// finds.
pub open spec fn is_first_user(users: Seq<UserRecordView>, id: Seq<char>, i: int) -> bool {
    &&& 0 <= i < users.len()
    &&& users[i].id == id
    &&& forall|j: int| 0 <= j < i ==> users[j].id != id
}

pub open spec fn user_exists(users: Seq<UserRecordView>, id: Seq<char>) -> bool {
    exists|i: int| 0 <= i < users.len() && users[i].id == id
}

/// The user document found by id holds a password field equal to `password`.
pub open spec fn password_accepted(
    users: Seq<UserRecordView>,
    id: Seq<char>,
    password: Seq<char>,
) -> bool {
    exists|i: int| is_first_user(users, id, i) && users[i].password == Some(password)
}

pub open spec fn public_user(u: UserRecordView) -> UserView {
    UserView { id: u.id, name: u.name }
}

pub open spec fn chats_of(chats: Seq<ChatView>, user: Seq<char>) -> Seq<ChatView> {
    chats.filter(|c: ChatView| c.participant_ids.contains(user))
}

pub open spec fn texts_of(texts: Seq<TextView>, chat_id: Seq<char>) -> Seq<TextView> {
    texts.filter(|t: TextView| t.chat_id == chat_id)
}

/// The user document that signup stores: the username doubles as the name.
pub open spec fn new_user(username: Seq<char>, password: Seq<char>) -> UserRecordView {
    UserRecordView { id: username, name: username, password: Some(password) }
}

/// A fresh chat between `from` and `to`, with no texts listed.
pub open spec fn new_chat(id: Seq<char>, from: Seq<char>, to: Seq<char>) -> ChatView {
    ChatView { id, participant_ids: seq![from, to], text_ids: Seq::empty() }
}

pub open spec fn new_text(
    id: Seq<char>,
    chat_id: Seq<char>,
    content: Seq<char>,
    from: Seq<char>,
) -> TextView {
    TextView { id, content, from, chat_id }
}

pub proof fn lemma_filter_push<A>(s: Seq<A>, a: A, pred: spec_fn(A) -> bool)
    ensures
        s.push(a).filter(pred) == (if pred(a) {
            s.filter(pred).push(a)
        } else {
            s.filter(pred)
        }),
{
    reveal_with_fuel(Seq::filter, 1);
    assert(s.push(a).drop_last() =~= s);
}

impl Store {
    pub fn new() -> (r: Store)
        ensures
            r@.users.len() == 0,
            r@.chats.len() == 0,
            r@.texts.len() == 0,
    {
        Store { users: Vec::new(), chats: Vec::new(), texts: Vec::new() }
    }

    /// Index of the first user document whose id is `id`.
    pub fn find_user(&self, id: &String) -> (r: Option<usize>)
        ensures
            match r {
                Some(i) => is_first_user(self@.users, id@, i as int),
                None => !user_exists(self@.users, id@),
            },
    {
        let mut i: usize = 0;
        while i < self.users.len()
            invariant
                i <= self.users.len(),
                forall|j: int| 0 <= j < i ==> self@.users[j].id != id@,
            decreases self.users.len() - i,
        {
            if self.users[i].id == *id {
                return Some(i);
            }
            i = i + 1;
        }
        None
    }

    pub fn insert_user(&mut self, user: UserRecord)
        ensures
            final(self)@.users == old(self)@.users.push(user@),
            final(self)@.chats == old(self)@.chats,
            final(self)@.texts == old(self)@.texts,
    {
        self.users.push(user);
        assert(users_view(self.users@) =~= users_view(old(self).users@).push(user@));
    }

    pub fn insert_chat(&mut self, chat: Chat)
        ensures
            final(self)@.chats == old(self)@.chats.push(chat@),
            final(self)@.users == old(self)@.users,
            final(self)@.texts == old(self)@.texts,
    {
        self.chats.push(chat);
        assert(chats_view(self.chats@) =~= chats_view(old(self).chats@).push(chat@));
    }

    pub fn insert_text(&mut self, text: Text)
        ensures
            final(self)@.texts == old(self)@.texts.push(text@),
            final(self)@.users == old(self)@.users,
            final(self)@.chats == old(self)@.chats,
    {
        self.texts.push(text);
        assert(texts_view(self.texts@) =~= texts_view(old(self).texts@).push(text@));
    }
}

/// Whether a user document with this id exists.
pub fn get_user_for_id(store: &Store, id: &String) -> (r: bool)
    ensures
        r == user_exists(store@.users, id@),
{
    match store.find_user(id) {
        Some(_) => true,
        None => false,
    }
}

/// Whether the user document found by `id` holds exactly `password`; false
/// when there is no such document or it has no password field.
pub fn authenticate_user(store: &Store, id: &String, password: &String) -> (r: bool)
    ensures
        r == password_accepted(store@.users, id@, password@),
{
    match store.find_user(id) {
        Some(i) => {
            let found = &store.users[i];
            assert(found@ == store@.users[i as int]);
            match &found.password {
                Some(p) => {
                    let ok = *p == *password;
                    if !ok {
                        assert(!password_accepted(store@.users, id@, password@)) by {
                            if password_accepted(store@.users, id@, password@) {
                                let k = choose|k: int|
                                    is_first_user(store@.users, id@, k)
                                        && store@.users[k].password == Some(password@);
                                assert(k == i);
                            }
                        }
                    }
                    ok
                },
                None => {
                    assert(!password_accepted(store@.users, id@, password@)) by {
                        if password_accepted(store@.users, id@, password@) {
                            let k = choose|k: int|
                                is_first_user(store@.users, id@, k)
                                    && store@.users[k].password == Some(password@);
                            assert(k == i);
                        }
                    }
                    false
                },
            }
        },
        None => false,
    }
}

/// Every user document, as id and name, in store order.
pub fn get_all_users(store: &Store) -> (r: Vec<User>)
    ensures
        public_users_view(r@) == store@.users.map_values(|u: UserRecordView| public_user(u)),
{
    let mut r: Vec<User> = Vec::new();
    let mut i: usize = 0;
    while i < store.users.len()
        invariant
            i <= store.users.len(),
            public_users_view(r@) == store@.users.subrange(0, i as int).map_values(
                |u: UserRecordView| public_user(u),
            ),
        decreases store.users.len() - i,
    {
        let u = &store.users[i];
        let ghost before = r@;
        let user = User { id: u.id.clone(), name: u.name.clone() };
        assert(user@ == public_user(store@.users[i as int]));
        r.push(user);
        assert(public_users_view(r@) =~= public_users_view(before).push(user@));
        assert(store@.users.subrange(0, i + 1) =~= store@.users.subrange(0, i as int).push(
            store@.users[i as int],
        ));
        i = i + 1;
        assert(public_users_view(r@) =~= store@.users.subrange(0, i as int).map_values(
            |u: UserRecordView| public_user(u),
        ));
    }
    assert(store@.users.subrange(0, i as int) =~= store@.users);
    r
}

/// Stores a new user document with the given id and password. It does not
/// check that the id is free.
pub fn create_user(store: &mut Store, username: &String, password: &String) -> (r: bool)
    ensures
        r,
        final(store)@.users == old(store)@.users.push(new_user(username@, password@)),
        final(store)@.chats == old(store)@.chats,
        final(store)@.texts == old(store)@.texts,
{
    let record = UserRecord {
        id: username.clone(),
        name: username.clone(),
        password: Some(password.clone()),
    };
    store.insert_user(record);
    true
}

/// Every chat that lists `username` among its participants, in store order.
pub fn get_chats_for_user(store: &Store, username: &String) -> (r: Vec<Chat>)
    ensures
        chats_view(r@) == chats_of(store@.chats, username@),
{
    let mut r: Vec<Chat> = Vec::new();
    let mut i: usize = 0;
    while i < store.chats.len()
        invariant
            i <= store.chats.len(),
            chats_view(r@) == chats_of(store@.chats.subrange(0, i as int), username@),
        decreases store.chats.len() - i,
    {
        let c = &store.chats[i];
        let ghost prefix = store@.chats.subrange(0, i as int);
        proof {
            assert(store@.chats.subrange(0, i + 1) =~= prefix.push(c@));
            lemma_filter_push(prefix, c@, |c: ChatView| c.participant_ids.contains(username@));
        }
        if c.has_participant(username) {
            let ghost before = r@;
            r.push(c.copy());
            assert(chats_view(r@) =~= chats_view(before).push(c@));
        }
        i = i + 1;
    }
    assert(store@.chats.subrange(0, i as int) =~= store@.chats);
    r
}

/// Every text whose chat id is `id`, in store order.
pub fn get_texts_for_chat(store: &Store, id: &String) -> (r: Vec<Text>)
    ensures
        texts_view(r@) == texts_of(store@.texts, id@),
{
    let mut r: Vec<Text> = Vec::new();
    let mut i: usize = 0;
    while i < store.texts.len()
        invariant
            i <= store.texts.len(),
            texts_view(r@) == texts_of(store@.texts.subrange(0, i as int), id@),
        decreases store.texts.len() - i,
    {
        let t = &store.texts[i];
        let ghost prefix = store@.texts.subrange(0, i as int);
        proof {
            assert(store@.texts.subrange(0, i + 1) =~= prefix.push(t@));
            lemma_filter_push(prefix, t@, |t: TextView| t.chat_id == id@);
        }
        if t.chat_id == *id {
            let ghost before = r@;
            r.push(t.copy());
            assert(texts_view(r@) =~= texts_view(before).push(t@));
        }
        i = i + 1;
    }
    assert(store@.texts.subrange(0, i as int) =~= store@.texts);
    r
}

/// Stores a text under a freshly drawn id and returns that id. Neither the
/// chat nor the sender is checked, and the chat's own list of texts is left
/// as it was.
pub fn send_text_to_user(store: &mut Store, chat_id: &String, content: &String, from: &String)
    -> (r: String)
    ensures
        exists|n: u32| r@ == decimal(n as nat),
        final(store)@.texts == old(store)@.texts.push(
            new_text(r@, chat_id@, content@, from@),
        ),
        final(store)@.users == old(store)@.users,
        final(store)@.chats == old(store)@.chats,
{
    let n = random_u32();
    let id = id_string(n);
    assert(id@ == decimal(n as nat));
    let text = Text {
        id: id.clone(),
        content: content.clone(),
        from: from.clone(),
        chat_id: chat_id.clone(),
    };
    store.insert_text(text);
    id
}

/// Stores a chat between `from` and `to` under a freshly drawn id, with no
/// texts, and returns that id. The participants are taken as given.
pub fn create_empty_chat(store: &mut Store, from: &String, to: &String) -> (r: String)
    ensures
        exists|n: u32| r@ == decimal(n as nat),
        final(store)@.chats == old(store)@.chats.push(new_chat(r@, from@, to@)),
        final(store)@.users == old(store)@.users,
        final(store)@.texts == old(store)@.texts,
{
    let n = random_u32();
    let id = id_string(n);
    assert(id@ == decimal(n as nat));
    let participants: Vec<String> = vec![from.clone(), to.clone()];
    let chat = Chat { id: id.clone(), participant_ids: participants, text_ids: Vec::new() };
    assert(strings_view(chat.participant_ids@) =~= seq![from@, to@]);
    assert(strings_view(chat.text_ids@) =~= Seq::<Seq<char>>::empty());
    store.insert_chat(chat);
    id
}

} // verus!
