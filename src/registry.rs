//! Users and the registry that holds them, in the order they were added.

use vstd::prelude::*;
use crate::text::copy_string;

verus! {

/// A message written by a user.
#[derive(Clone, Debug)]
pub struct Chat {
    pub chat: String,
    pub user_id: String,
    pub user_name: String,
}

/// A user: a name, the identity of the host it was created on, and its
/// messages.
#[derive(Clone, Debug)]
pub struct User {
    pub name: String,
    pub id: String,
    pub chat_log: Vec<Chat>,
}

pub struct ChatView {
    pub chat: Seq<char>,
    pub user_id: Seq<char>,
    pub user_name: Seq<char>,
}

pub struct UserView {
    pub name: Seq<char>,
    pub id: Seq<char>,
    pub chat_log: Seq<ChatView>,
}

impl View for Chat {
    type V = ChatView;

    open spec fn view(&self) -> ChatView {
        ChatView { chat: self.chat@, user_id: self.user_id@, user_name: self.user_name@ }
    }
}

impl View for User {
    type V = UserView;

    open spec fn view(&self) -> UserView {
        UserView {
            name: self.name@,
            id: self.id@,
            chat_log: self.chat_log@.map_values(|c: Chat| c@),
        }
    }
}

/// The users of one session, in the order they were added. Users are never
/// removed.
pub struct UserRegistry {
    users: Vec<User>,
}

impl View for UserRegistry {
    type V = Seq<UserView>;

    closed spec fn view(&self) -> Seq<UserView> {
        self.users@.map_values(|u: User| u@)
    }
}

/// The user that `add_user` creates.
pub open spec fn new_user(name: Seq<char>, id: Seq<char>) -> UserView {
    UserView { name, id, chat_log: Seq::empty() }
}

/// The first user with this identity, if any.
pub open spec fn find_user(users: Seq<UserView>, id: Seq<char>) -> Option<UserView>
    decreases users.len(),
{
    if users.len() == 0 {
        None
    } else if users[0].id == id {
        Some(users[0])
    } else {
        find_user(users.drop_first(), id)
    }
}

/// What an optional user means.
pub open spec fn user_option_view(u: Option<User>) -> Option<UserView> {
    match u {
        Some(v) => Some(v@),
        None => None,
    }
}

impl UserRegistry {
    /// An empty registry.
    pub fn new() -> (r: UserRegistry)
        ensures
            r@ == Seq::<UserView>::empty(),
    {
        UserRegistry { users: Vec::new() }
    }

    /// The number of users.
    pub fn len(&self) -> (n: usize)
        ensures
            n == self@.len(),
    {
        self.users.len()
    }
}

/// A copy of a message.
pub fn copy_chat(c: &Chat) -> (r: Chat)
    ensures
        r@ == c@,
{
    Chat {
        chat: copy_string(&c.chat),
        user_id: copy_string(&c.user_id),
        user_name: copy_string(&c.user_name),
    }
}

/// A copy of a user, messages included.
pub fn copy_user(u: &User) -> (r: User)
    ensures
        r@ == u@,
{
    let mut log: Vec<Chat> = Vec::new();
    let mut i: usize = 0;
    while i < u.chat_log.len()
        invariant
            i <= u.chat_log@.len(),
            log@.len() == i,
            forall|j: int| 0 <= j < i ==> (#[trigger] log@[j])@ == u.chat_log@[j]@,
        decreases u.chat_log@.len() - i,
    {
        log.push(copy_chat(&u.chat_log[i]));
        i = i + 1;
    }
    assert(log@.map_values(|c: Chat| c@) =~= u.chat_log@.map_values(|c: Chat| c@));
    User { name: copy_string(&u.name), id: copy_string(&u.id), chat_log: log }
}

/// Adds a user with this name and identity and an empty message log at the
/// end of the registry, and returns it. Names are not checked for
/// duplicates.
pub fn add_user(registry: &mut UserRegistry, name: String, id: String) -> (u: User)
    ensures
        u@ == new_user(name@, id@),
        final(registry)@ == old(registry)@.push(new_user(name@, id@)),
{
    let user = User { name, id, chat_log: Vec::new() };
    assert(user@.chat_log =~= Seq::<ChatView>::empty());
    let r = copy_user(&user);
    registry.users.push(user);
    assert(registry@ =~= old(registry)@.push(new_user(r@.name, r@.id)));
    r
}

/// The first user of the registry with this identity, if any.
pub fn get_user_by_id(registry: &UserRegistry, user_id: &str) -> (r: Option<User>)
    ensures
        user_option_view(r) == find_user(registry@, user_id@),
{
    let key = user_id.to_owned();
    let users = &registry.users;
    let mut i: usize = 0;
    assert(registry@.subrange(0, users@.len() as int) =~= registry@);
    while i < users.len()
        invariant
            i <= users@.len(),
            key@ == user_id@,
            users@.map_values(|u: User| u@) == registry@,
            find_user(registry@, user_id@) == find_user(registry@.subrange(i as int, users@.len() as int), user_id@),
        decreases users@.len() - i,
    {
        let ghost rest = registry@.subrange(i as int, users@.len() as int);
        assert(rest[0] == users@[i as int]@);
        if users[i].id == key {
            return Some(copy_user(&users[i]));
        }
        assert(rest.drop_first() =~= registry@.subrange(i + 1, users@.len() as int));
        i = i + 1;
    }
    None
}

/// A fresh registry finds nobody; once a user is added to it, looking up the
/// identity it was given finds that user, with the name it was given.
pub proof fn lemma_fresh_registry_lookup(name: Seq<char>, id: Seq<char>)
    ensures
        find_user(Seq::empty(), id) is None,
        find_user(Seq::empty().push(new_user(name, id)), id) == Some(new_user(name, id)),
        find_user(Seq::empty().push(new_user(name, id)), id)->0.name == name,
{
    lemma_lookup_after_add(Seq::empty(), name, id);
}

/// In a registry where no user has an identity, adding a user with it makes
/// lookup find that user.
pub proof fn lemma_lookup_after_add(users: Seq<UserView>, name: Seq<char>, id: Seq<char>)
    requires
        find_user(users, id) is None,
    ensures
        find_user(users.push(new_user(name, id)), id) == Some(new_user(name, id)),
    decreases users.len(),
{
    let s = users.push(new_user(name, id));
    if users.len() > 0 {
        assert(s.drop_first() =~= users.drop_first().push(new_user(name, id)));
        lemma_lookup_after_add(users.drop_first(), name, id);
    }
}

} // verus!
