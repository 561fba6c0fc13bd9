use vstd::prelude::*;

verus! {

/// One USB device that may authenticate a user, named by its partition
/// UUID.
pub struct DeviceConfig {
    pub uuid: String,
}

/// The devices configured for one user.
pub struct PerUserConfig {
    pub devices: Vec<DeviceConfig>,
}

impl PerUserConfig {
    /// The partition UUIDs of the user's devices, in configuration order.
    pub open spec fn uuids(&self) -> Seq<Seq<char>> {
        self.devices@.map_values(|d: DeviceConfig| d.uuid@)
    }

    /// The partition UUIDs of the user's devices, in configuration order.
    pub fn device_uuids(&self) -> (r: Vec<String>)
        ensures
            r@.map_values(|s: String| s@) == self.uuids(),
    {
        let mut r: Vec<String> = Vec::new();
        let mut i: usize = 0;
        while i < self.devices.len()
            invariant
                0 <= i <= self.devices@.len(),
                r@.len() == i,
                forall|j: int| 0 <= j < i ==> #[trigger] r@[j]@ == self.devices@[j].uuid@,
            decreases self.devices@.len() - i,
        {
            r.push(self.devices[i].uuid.clone());
            i = i + 1;
        }
        assert(r@.map_values(|s: String| s@) =~= self.uuids());
        r
    }
}

/// The configuration file: which devices may authenticate which user.
///
/// A user name occurs at most once.
pub struct Config {
    users: Vec<(String, PerUserConfig)>,
}

impl Config {
    #[verifier::type_invariant]
    closed spec fn names_distinct(&self) -> bool {
        forall|i: int, j: int|
            0 <= i < j < self.users@.len() ==> #[trigger] self.users@[i].0@
                != #[trigger] self.users@[j].0@
    }

    closed spec fn has_user_at(&self, i: int, user: Seq<char>) -> bool {
        0 <= i < self.users@.len() && self.users@[i].0@ == user
    }

    /// The configuration as a map from user name to that user's device
    /// UUIDs.
    pub closed spec fn users_map(&self) -> Map<Seq<char>, Seq<Seq<char>>> {
        Map::new(
            |u: Seq<char>| exists|i: int| self.has_user_at(i, u),
            |u: Seq<char>| self.users@[choose|i: int| self.has_user_at(i, u)].1.uuids(),
        )
    }

    /// A configuration with no users.
    pub fn new() -> (c: Config)
        ensures
            c.users_map() == Map::<Seq<char>, Seq<Seq<char>>>::empty(),
    {
        let c = Config { users: Vec::new() };
        assert(c.users_map() =~= Map::<Seq<char>, Seq<Seq<char>>>::empty());
        c
    }

    fn position(&self, user: &String) -> (r: Option<usize>)
        ensures
            match r {
                Some(i) => self.has_user_at(i as int, user@),
                None => forall|i: int| !self.has_user_at(i, user@),
            },
    {
        let mut i: usize = 0;
        while i < self.users.len()
            invariant
                0 <= i <= self.users@.len(),
                forall|j: int| 0 <= j < i ==> !self.has_user_at(j, user@),
            decreases self.users@.len() - i,
        {
            if self.users[i].0 == *user {
                return Some(i);
            }
            i = i + 1;
        }
        None
    }

    /// The entry of `user`, if the configuration has one.
    pub fn get(&self, user: &str) -> (r: Option<&PerUserConfig>)
        ensures
            match r {
                Some(p) => self.users_map().contains_key(user@) && self.users_map()[user@]
                    == p.uuids(),
                None => !self.users_map().contains_key(user@),
            },
    {
        proof {
            use_type_invariant(self);
        }
        let name = user.to_owned();
        match self.position(&name) {
            Some(i) => {
                let ghost c = choose|k: int| self.has_user_at(k, user@);
                assert(c == i as int);
                Some(&self.users[i].1)
            },
            None => None,
        }
    }

    /// Sets the entry of `user`, replacing any earlier one.
    pub fn insert(&mut self, user: String, per_user: PerUserConfig)
        ensures
            final(self).users_map() == old(self).users_map().insert(user@, per_user.uuids()),
    {
        proof {
            use_type_invariant(&*self);
        }
        let ghost old_cfg = *self;
        let ghost old_map = self.users_map();
        let ghost old_users = self.users@;
        let mut users: Vec<(String, PerUserConfig)> = Vec::new();
        std::mem::swap(&mut users, &mut self.users);
        let ghost name = user@;
        let ghost uuids = per_user.uuids();
        let pos = self.find_in(&users, &user);
        match pos {
            Some(i) => {
                users.set(i, (user, per_user));
            },
            None => {
                users.push((user, per_user));
            },
        }
        proof {
            assert forall|i: int, j: int|
                0 <= i < j < users@.len() implies #[trigger] users@[i].0@
                != #[trigger] users@[j].0@ by {
                if i < old_users.len() && j < old_users.len() {
                    assert(old_users[i].0@ != old_users[j].0@);
                }
            }
        }
        let ghost new_users = users@;
        let ghost at: int = match pos {
            Some(i) => i as int,
            None => old_users.len() as int,
        };
        proof {
            assert(new_users[at].0@ == name);
            assert forall|k: int| 0 <= k < old_users.len() && k != at implies new_users[k]
                == old_users[k] by {}
        }
        self.users = users;
        proof {
            let m = self.users_map();
            let e = old_map.insert(name, uuids);
            assert(self.has_user_at(at, name));
            assert forall|u: Seq<char>| #[trigger] m.contains_key(u) == e.contains_key(u) by {
                if u == name {
                    assert(self.has_user_at(at, name));
                    assert(m.contains_key(u));
                    assert(e.contains_key(u));
                } else if e.contains_key(u) {
                    assert(old_map.contains_key(u));
                    let k = choose|k: int| old_cfg.has_user_at(k, u);
                    assert(k != at);
                    assert(self.has_user_at(k, u));
                    assert(m.contains_key(u));
                } else if m.contains_key(u) {
                    let k = choose|k: int| self.has_user_at(k, u);
                    assert(k != at);
                    assert(old_cfg.has_user_at(k, u));
                    assert(old_map.contains_key(u));
                }
            }
            assert forall|u: Seq<char>| m.contains_key(u) implies #[trigger] m[u] == e[u] by {
                let k = choose|k: int| self.has_user_at(k, u);
                if u != name {
                    let k0 = choose|k0: int| old_cfg.has_user_at(k0, u);
                    assert(k0 != at);
                    assert(self.has_user_at(k0, u));
                    assert(k == k0);
                } else {
                    assert(k == at);
                }
            }
            assert(m =~= e);
        }
    }

    fn find_in(&self, users: &Vec<(String, PerUserConfig)>, user: &String) -> (r: Option<usize>)
        ensures
            match r {
                Some(i) => 0 <= i < users@.len() && users@[i as int].0@ == user@,
                None => forall|i: int| 0 <= i < users@.len() ==> users@[i].0@ != user@,
            },
    {
        let mut i: usize = 0;
        while i < users.len()
            invariant
                0 <= i <= users@.len(),
                forall|j: int| 0 <= j < i ==> users@[j].0@ != user@,
            decreases users@.len() - i,
        {
            if users[i].0 == *user {
                return Some(i);
            }
            i = i + 1;
        }
        None
    }
}

/// Reading back an entry gives what was last stored for that user, and
/// storing an entry leaves the other users' entries unchanged: for any
/// configuration `after` obtained from `before` by `insert`.
pub proof fn lemma_config_insert_then_get(
    before: &Config,
    after: &Config,
    user: Seq<char>,
    uuids: Seq<Seq<char>>,
    other: Seq<char>,
)
    requires
        after.users_map() == before.users_map().insert(user, uuids),
    ensures
        after.users_map().contains_key(user),
        after.users_map()[user] == uuids,
        other != user ==> after.users_map().contains_key(other) == before.users_map().contains_key(
            other,
        ),
        other != user && before.users_map().contains_key(other) ==> after.users_map()[other]
            == before.users_map()[other],
{
}

} // verus!
