//! The validated identity of a caller: the profile the identity service
//! answers with, and the attribute lookup that authorization reads.

use vstd::prelude::*;

verus! {

/// One profile attribute, a key/value pair of strings. The identity
/// service hands attributes back as a string map; the profile keeps them
/// as an association list read front to back.
#[derive(Debug, PartialEq, Eq)]
pub struct Attribute {
    pub key: String,
    pub value: String,
}

impl View for Attribute {
    type V = (Seq<char>, Seq<char>);

    open spec fn view(&self) -> (Seq<char>, Seq<char>) {
        (self.key@, self.value@)
    }
}

impl Clone for Attribute {
    fn clone(&self) -> (res: Self)
        ensures
            res == *self,
    {
        Attribute { key: self.key.clone(), value: self.value.clone() }
    }
}

/// The first value stored under `key`, if any.
pub open spec fn spec_find_attr(attrs: Seq<(Seq<char>, Seq<char>)>, key: Seq<char>) -> Option<
    Seq<char>,
>
    decreases attrs.len(),
{
    if attrs.len() == 0 {
        None
    } else if attrs[0].0 == key {
        Some(attrs[0].1)
    } else {
        spec_find_attr(attrs.drop_first(), key)
    }
}

/// The mathematical content of an [`AuthProfile`].
pub ghost struct ProfileView {
    pub id: int,
    pub client_id: Seq<char>,
    pub user_id: int,
    pub attributes: Seq<(Seq<char>, Seq<char>)>,
}

impl ProfileView {
    /// The value of the `"role"` attribute, or absent.
    pub open spec fn role(self) -> Option<Seq<char>> {
        spec_find_attr(self.attributes, "role"@)
    }

    /// Whether the profile carries the elevated role. A missing `"role"`
    /// attribute means no elevated role, it is not an error.
    pub open spec fn is_admin(self) -> bool {
        self.role() == Some("admin"@)
    }
}

/// A caller's validated identity. `user_id == 0` is the identity
/// provider's sentinel for "no real user": such a profile must never be
/// accepted or cached by the gateway.
#[derive(Debug, PartialEq, Eq)]
pub struct AuthProfile {
    pub id: i32,
    pub client_id: String,
    pub user_id: i32,
    pub attributes: Vec<Attribute>,
}

impl View for AuthProfile {
    type V = ProfileView;

    open spec fn view(&self) -> ProfileView {
        ProfileView {
            id: self.id as int,
            client_id: self.client_id@,
            user_id: self.user_id as int,
            attributes: self.attributes@.map_values(|a: Attribute| a@),
        }
    }
}

impl Clone for AuthProfile {
    fn clone(&self) -> (res: Self)
        ensures
            res@ == self@,
            res.user_id == self.user_id,
            res.id == self.id,
    {
        let mut attributes: Vec<Attribute> = Vec::new();
        let mut i: usize = 0;
        while i < self.attributes.len()
            invariant
                i <= self.attributes.len(),
                attributes@ =~= self.attributes@.subrange(0, i as int),
            decreases self.attributes.len() - i,
        {
            attributes.push(self.attributes[i].clone());
            i += 1;
        }
        proof {
            assert(attributes@ =~= self.attributes@);
        }
        AuthProfile {
            id: self.id,
            client_id: self.client_id.clone(),
            user_id: self.user_id,
            attributes,
        }
    }
}

impl AuthProfile {
    /// The value of the attribute named `key`, if the profile carries one.
    pub fn attribute(&self, key: &str) -> (res: Option<&String>)
        ensures
            match res {
                Some(v) => spec_find_attr(self@.attributes, key@) == Some(v@),
                None => spec_find_attr(self@.attributes, key@) is None,
            },
    {
        let owned_key = key.to_owned();
        let ghost attrs = self@.attributes;
        proof {
            assert(attrs.subrange(0, attrs.len() as int) =~= attrs);
        }
        let mut i: usize = 0;
        while i < self.attributes.len()
            invariant
                i <= self.attributes.len(),
                owned_key@ == key@,
                attrs == self@.attributes,
                attrs.len() == self.attributes@.len(),
                spec_find_attr(attrs, key@) == spec_find_attr(
                    attrs.subrange(i as int, attrs.len() as int),
                    key@,
                ),
            decreases self.attributes.len() - i,
        {
            proof {
                let rest = attrs.subrange(i as int, attrs.len() as int);
                assert(rest[0] == attrs[i as int]);
                assert(rest.drop_first() =~= attrs.subrange(i as int + 1, attrs.len() as int));
            }
            if self.attributes[i].key == owned_key {
                return Some(&self.attributes[i].value);
            }
            i += 1;
        }
        proof {
            assert(attrs.subrange(i as int, attrs.len() as int) =~= Seq::<
                (Seq<char>, Seq<char>),
            >::empty());
        }
        None
    }

    pub fn is_admin(&self) -> (res: bool)
        ensures
            res == self@.is_admin(),
    {
        match self.attribute("role") {
            Some(value) => *value == String::from_str("admin"),
            None => false,
        }
    }
}

} // verus!
