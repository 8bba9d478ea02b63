use vstd::prelude::*;

verus! {

/// The mathematical value of a [`User`].
pub struct UserView {
    pub id: Seq<char>,
    pub name: Seq<char>,
    pub preferred_language: Option<Seq<char>>,
}

/// The person a conversation belongs to.
#[derive(Debug, PartialEq, Eq)]
pub struct User {
    /// Identifier that the chat platform keeps stable.
    pub id: String,
    /// Display name.
    pub name: String,
    /// The user's preferred language in english
    pub preferred_language: Option<String>,
}

impl View for User {
    type V = UserView;

    open spec fn view(&self) -> UserView {
        UserView {
            id: self.id@,
            name: self.name@,
            preferred_language: match self.preferred_language {
                Some(language) => Some(language@),
                None => None,
            },
        }
    }
}

impl Clone for User {
    fn clone(&self) -> (copy: Self)
        ensures
            copy@ == self@,
    {
        let preferred_language = match &self.preferred_language {
            Some(language) => Some(language.clone()),
            None => None,
        };
        User { id: self.id.clone(), name: self.name.clone(), preferred_language }
    }
}

} // verus!
