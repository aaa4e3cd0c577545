use vstd::prelude::*;

verus! {

/// The mathematical form of a list of identifiers.
pub open spec fn strings_view(v: Seq<String>) -> Seq<Seq<char>> {
    v.map_values(|s: String| s@)
}

/// A user as the repository hands it out.
pub struct User {
    pub id: String,
    pub name: String,
}

/// A stored user document. `password` is absent when the document lacks
/// the field.
pub struct UserRecord {
    pub id: String,
    pub name: String,
    pub password: Option<String>,
}

pub struct Chat {
    pub id: String,
    pub participant_ids: Vec<String>,
    pub text_ids: Vec<String>,
}

pub struct Text {
    pub id: String,
    pub content: String,
    pub from: String,
    pub chat_id: String,
}

pub ghost struct UserView {
    pub id: Seq<char>,
    pub name: Seq<char>,
}

pub ghost struct UserRecordView {
    pub id: Seq<char>,
    pub name: Seq<char>,
    pub password: Option<Seq<char>>,
}

pub ghost struct ChatView {
    pub id: Seq<char>,
    pub participant_ids: Seq<Seq<char>>,
    pub text_ids: Seq<Seq<char>>,
}

pub ghost struct TextView {
    pub id: Seq<char>,
    pub content: Seq<char>,
    pub from: Seq<char>,
    pub chat_id: Seq<char>,
}

impl View for User {
    type V = UserView;

    open spec fn view(&self) -> UserView {
        UserView { id: self.id@, name: self.name@ }
    }
}

impl View for UserRecord {
    type V = UserRecordView;

    open spec fn view(&self) -> UserRecordView {
        UserRecordView {
            id: self.id@,
            name: self.name@,
            password: match self.password {
                Some(p) => Some(p@),
                None => None,
            },
        }
    }
}

impl View for Chat {
    type V = ChatView;

    open spec fn view(&self) -> ChatView {
        ChatView {
            id: self.id@,
            participant_ids: strings_view(self.participant_ids@),
            text_ids: strings_view(self.text_ids@),
        }
    }
}

impl View for Text {
    type V = TextView;

    open spec fn view(&self) -> TextView {
        TextView {
            id: self.id@,
            content: self.content@,
            from: self.from@,
            chat_id: self.chat_id@,
        }
    }
}

/// A copy of a list of strings, element by element.
pub fn copy_strings(v: &Vec<String>) -> (r: Vec<String>)
    ensures
        r@ == v@,
{
    let mut r: Vec<String> = Vec::new();
    let mut i: usize = 0;
    while i < v.len()
        invariant
            i <= v.len(),
            r@ == v@.subrange(0, i as int),
        decreases v.len() - i,
    {
        r.push(v[i].clone());
        i = i + 1;
        assert(r@ =~= v@.subrange(0, i as int));
    }
    assert(r@ =~= v@);
    r
}

impl Chat {
    pub fn copy(&self) -> (r: Chat)
        ensures
            r@ == self@,
    {
        Chat {
            id: self.id.clone(),
            participant_ids: copy_strings(&self.participant_ids),
            text_ids: copy_strings(&self.text_ids),
        }
    }

    /// Whether `user` is among the chat's participants, at any position.
    pub fn has_participant(&self, user: &String) -> (r: bool)
        ensures
            r == self@.participant_ids.contains(user@),
    {
        let mut i: usize = 0;
        while i < self.participant_ids.len()
            invariant
                i <= self.participant_ids.len(),
                forall|j: int| 0 <= j < i ==> self.participant_ids@[j]@ != user@,
            decreases self.participant_ids.len() - i,
        {
            if self.participant_ids[i] == *user {
                assert(self@.participant_ids[i as int] == user@);
                return true;
            }
            i = i + 1;
        }
        assert(!self@.participant_ids.contains(user@)) by {
            if self@.participant_ids.contains(user@) {
                let k = choose|k: int|
                    0 <= k < self@.participant_ids.len() && self@.participant_ids[k] == user@;
                assert(self.participant_ids@[k]@ == user@);
            }
        }
        false
    }
}

impl Text {
    pub fn copy(&self) -> (r: Text)
        ensures
            r@ == self@,
    {
        Text {
            id: self.id.clone(),
            content: self.content.clone(),
            from: self.from.clone(),
            chat_id: self.chat_id.clone(),
        }
    }
}

} // verus!
