//! Server configuration: one or several servers, the active one, and what the app does to it.
use vstd::prelude::*;
use crate::text::{chars_of, parse_unsigned, parse_unsigned_spec, push_all, push_decimal, decimal, trim, trimmed};

verus! {

/// The settings of the server in use.
#[derive(Debug)]
pub struct Config {
    pub server_url: String,
    pub username: String,
    pub password: String,
    pub token: Option<String>,
    pub user_id: Option<String>,
}

impl Default for Config {
    fn default() -> (c: Self)
        ensures
            c.server_url@ == Seq::<char>::empty(),
            c.username@ == Seq::<char>::empty(),
            c.password@ == Seq::<char>::empty(),
            c.token is None,
            c.user_id is None,
    {
        Config {
            server_url: String::new(),
            username: String::new(),
            password: String::new(),
            token: None,
            user_id: None,
        }
    }
}

/// One configured server.
#[derive(Debug)]
pub struct ServerEntry {
    pub name: String,
    pub server_url: String,
    pub username: String,
    pub password: String,
    pub token: Option<String>,
    pub user_id: Option<String>,
}

/// All configured servers and the name of the active one.
#[derive(Debug)]
pub struct MultiServerConfig {
    pub active: String,
    pub servers: Vec<ServerEntry>,
}

fn copy_opt(o: &Option<String>) -> (r: Option<String>)
    ensures
        r == *o,
{
    match o {
        Some(s) => Some(s.clone()),
        None => None,
    }
}

impl ServerEntry {
    /// The URL shown for this server in the server menu.
    pub fn url_display(&self) -> (r: &str)
        ensures
            r@ == self.server_url@,
    {
        self.server_url.as_str()
    }
}

impl From<&ServerEntry> for Config {
    fn from(entry: &ServerEntry) -> (c: Self) {
        Config {
            server_url: entry.server_url.clone(),
            username: entry.username.clone(),
            password: entry.password.clone(),
            token: copy_opt(&entry.token),
            user_id: copy_opt(&entry.user_id),
        }
    }
}

impl vstd::std_specs::convert::FromSpecImpl<&ServerEntry> for Config {
    open spec fn obeys_from_spec() -> bool {
        true
    }

    open spec fn from_spec(entry: &ServerEntry) -> Config {
        Config {
            server_url: entry.server_url,
            username: entry.username,
            password: entry.password,
            token: entry.token,
            user_id: entry.user_id,
        }
    }
}

/// The settings of a server entry: everything but its name.
pub open spec fn entry_config(entry: ServerEntry) -> Config {
    Config {
        server_url: entry.server_url,
        username: entry.username,
        password: entry.password,
        token: entry.token,
        user_id: entry.user_id,
    }
}

/// The first server called `name`, if there is one.
pub open spec fn first_named(servers: Seq<ServerEntry>, name: Seq<char>) -> Option<int>
    decreases servers.len(),
{
    if servers.len() == 0 {
        None
    } else if servers[0].name@ == name {
        Some(0)
    } else {
        match first_named(servers.drop_first(), name) {
            Some(i) => Some(i + 1),
            None => None,
        }
    }
}

proof fn lemma_first_named_bounds(servers: Seq<ServerEntry>, name: Seq<char>)
    ensures
        first_named(servers, name) matches Some(i) ==> 0 <= i < servers.len() && servers[i].name@ == name,
        first_named(servers, name) is None ==> forall|k: int| 0 <= k < servers.len() ==> #[trigger] servers[k].name@ != name,
    decreases servers.len(),
{
    if servers.len() > 0 {
        lemma_first_named_bounds(servers.drop_first(), name);
        if first_named(servers, name) is None {
            assert forall|k: int| 0 <= k < servers.len() implies #[trigger] servers[k].name@ != name by {
                if k > 0 {
                    assert(servers[k] == servers.drop_first()[k - 1]);
                }
            }
        }
    }
}

fn find_server(servers: &Vec<ServerEntry>, name: &str) -> (r: Option<usize>)
    ensures
        r is Some == first_named(servers@, name@) is Some,
        r matches Some(i) ==> first_named(servers@, name@) == Some(i as int),
{
    let mut i: usize = 0;
    assert(servers@.skip(0) =~= servers@);
    while i < servers.len()
        invariant
            i <= servers@.len(),
            first_named(servers@, name@) == (match first_named(servers@.skip(i as int), name@) {
                Some(k) => Some(k + i),
                None => None,
            }),
        decreases servers@.len() - i,
    {
        let ghost rest = servers@.skip(i as int);
        assert(rest.drop_first() =~= servers@.skip(i + 1));
        if str_eq(servers[i].name.as_str(), name) {
            return Some(i);
        }
        i = i + 1;
    }
    None
}

/// Whether two strings are equal.
pub fn str_eq(a: &str, b: &str) -> (r: bool)
    ensures
        r == (a@ == b@),
{
    let x = chars_of(a);
    let y = chars_of(b);
    if x.len() != y.len() {
        return false;
    }
    let mut i: usize = 0;
    while i < x.len()
        invariant
            x@ == a@,
            y@ == b@,
            x@.len() == y@.len(),
            i <= x@.len(),
            forall|k: int| 0 <= k < i ==> x@[k] == y@[k],
        decreases x@.len() - i,
    {
        if x[i] != y[i] {
            return false;
        }
        i = i + 1;
    }
    assert(x@ =~= y@);
    true
}

/// The settings of the first server called `name`, if there is one.
pub fn get_server_config(multi: &MultiServerConfig, name: &str) -> (r: Option<Config>)
    ensures
        match first_named(multi.servers@, name@) {
            Some(i) => r == Some(entry_config(multi.servers@[i])),
            None => r is None,
        },
{
    proof {
        lemma_first_named_bounds(multi.servers@, name@);
    }
    match find_server(&multi.servers, name) {
        Some(i) => {
            let c = Config::from(&multi.servers[i]);
            assert(first_named(multi.servers@, name@) == Some(i as int));
            assert(c == entry_config(multi.servers@[i as int]));
            Some(c)
        },
        None => None,
    }
}

/// The configuration an old single-server file becomes: one server named "default", active.
pub fn migrate_config(old: Config) -> (multi: MultiServerConfig)
    ensures
        multi.active@ == "default"@,
        multi.servers@.len() == 1,
        multi.servers@[0].name@ == "default"@,
        entry_config(multi.servers@[0]) == old,
{
    let entry = ServerEntry {
        name: "default".to_owned(),
        server_url: old.server_url,
        username: old.username,
        password: old.password,
        token: old.token,
        user_id: old.user_id,
    };
    let mut servers: Vec<ServerEntry> = Vec::new();
    servers.push(entry);
    MultiServerConfig { active: "default".to_owned(), servers }
}

impl MultiServerConfig {
    /// Records the token and user id of `config` on the first server called `server_name`;
    /// nothing changes when there is no such server.
    pub fn update_server(&mut self, server_name: &str, config: &Config)
        ensures
            final(self).active == old(self).active,
            final(self).servers@.len() == old(self).servers@.len(),
            match first_named(old(self).servers@, server_name@) {
                Some(i) => final(self).servers@ == old(self).servers@.update(i, ServerEntry {
                    token: config.token,
                    user_id: config.user_id,
                    ..old(self).servers@[i]
                }),
                None => final(self).servers@ == old(self).servers@,
            },
    {
        proof {
            lemma_first_named_bounds(self.servers@, server_name@);
        }
        if let Some(i) = find_server(&self.servers, server_name) {
            let mut servers = Vec::new();
            std::mem::swap(&mut servers, &mut self.servers);
            let mut entry = servers.remove(i);
            entry.token = copy_opt(&config.token);
            entry.user_id = copy_opt(&config.user_id);
            servers.insert(i, entry);
            self.servers = servers;
            assert(self.servers@ =~= old(self).servers@.update(i as int, ServerEntry {
                token: config.token,
                user_id: config.user_id,
                ..old(self).servers@[i as int]
            }));
        }
    }
}

/// The server chosen without asking: the only one, when there is exactly one.
pub fn preselected_server(multi: &MultiServerConfig) -> (r: Option<String>)
    ensures
        multi.servers@.len() == 1 ==> (r matches Some(n) && n@ == multi.servers@[0].name@),
        multi.servers@.len() != 1 ==> r is None,
{
    if multi.servers.len() == 1 {
        Some(multi.servers[0].name.clone())
    } else {
        None
    }
}

/// The server an answer to the server menu selects. The answer is trimmed; an empty answer
/// keeps the active server; a number from 1 to the number of servers picks that server; an
/// answer naming a server picks it; anything else keeps the active server.
pub open spec fn chosen_server(multi: MultiServerConfig, input: Seq<char>) -> Seq<char> {
    let t = trimmed(input);
    let n = multi.servers@.len();
    if t.len() == 0 {
        multi.active@
    } else if parse_unsigned_spec(t, usize::MAX as nat) is Some
        && 1 <= parse_unsigned_spec(t, usize::MAX as nat)->0 <= n {
        multi.servers@[parse_unsigned_spec(t, usize::MAX as nat)->0 - 1].name@
    } else if first_named(multi.servers@, t) is Some {
        t
    } else {
        multi.active@
    }
}

/// Applies an answer to the server menu (see [`chosen_server`]).
pub fn choose_server(multi: &MultiServerConfig, input: &str) -> (r: String)
    ensures
        r@ == chosen_server(*multi, input@),
{
    let t = trim(input);
    if t.is_empty() {
        return multi.active.clone();
    }
    if let Some(k) = parse_unsigned(t, usize::MAX as u64) {
        if k >= 1 && k <= multi.servers.len() as u64 {
            return multi.servers[(k - 1) as usize].name.clone();
        }
    }
    proof {
        lemma_first_named_bounds(multi.servers@, t@);
    }
    let found = find_server(&multi.servers, t);
    assert(!(parse_unsigned_spec(t@, usize::MAX as nat) is Some
        && 1 <= parse_unsigned_spec(t@, usize::MAX as nat)->0 <= multi.servers@.len()));
    match found {
        Some(i) => {
            assert(first_named(multi.servers@, t@) == Some(i as int));
            multi.servers[i].name.clone()
        },
        None => multi.active.clone(),
    }
}

/// One line of the server menu: `  [n] name — url`, with ` (active)` after the active one.
pub open spec fn menu_line(position: nat, entry: ServerEntry, active: Seq<char>) -> Seq<char> {
    "  ["@ + decimal(position) + "] "@ + entry.name@ + " — "@ + entry.server_url@
        + (if entry.name@ == active { " (active)"@ } else { Seq::empty() })
}

/// The lines of the server menu, numbered from 1.
pub fn server_menu(multi: &MultiServerConfig) -> (lines: Vec<String>)
    ensures
        lines@.len() == multi.servers@.len(),
        forall|i: int| 0 <= i < lines@.len() ==> #[trigger] lines@[i]@ == menu_line(
            (i + 1) as nat,
            multi.servers@[i],
            multi.active@,
        ),
{
    let mut lines: Vec<String> = Vec::new();
    let mut i: usize = 0;
    while i < multi.servers.len()
        invariant
            i <= multi.servers@.len(),
            lines@.len() == i,
            forall|k: int| 0 <= k < i ==> #[trigger] lines@[k]@ == menu_line(
                (k + 1) as nat,
                multi.servers@[k],
                multi.active@,
            ),
        decreases multi.servers@.len() - i,
    {
        let entry = &multi.servers[i];
        let mut line = String::new();
        push_all(&mut line, "  [");
        push_decimal(&mut line, (i + 1) as u64);
        push_all(&mut line, "] ");
        push_all(&mut line, entry.name.as_str());
        push_all(&mut line, " — ");
        push_all(&mut line, entry.url_display());
        if str_eq(entry.name.as_str(), multi.active.as_str()) {
            push_all(&mut line, " (active)");
        }
        proof {
            assert(line@ =~= menu_line((i + 1) as nat, multi.servers@[i as int], multi.active@));
        }
        lines.push(line);
        i = i + 1;
    }
    lines
}

/// The name a first-run answer gives the new server: the trimmed answer, or "default" when it
/// is empty.
pub fn server_name_from_input(input: &str) -> (r: String)
    ensures
        trimmed(input@).len() == 0 ==> r@ == "default"@,
        trimmed(input@).len() > 0 ==> r@ == trimmed(input@),
{
    let t = trim(input);
    if t.is_empty() { "default".to_owned() } else { t.to_owned() }
}

/// The configuration a first-run answer creates: one server, active, with no token or user id
/// yet.
pub fn new_server_config(name: String, server_url: String, username: String, password: String) -> (multi: MultiServerConfig)
    ensures
        multi.active@ == name@,
        multi.servers@.len() == 1,
        multi.servers@[0].name@ == name@,
        multi.servers@[0].server_url == server_url,
        multi.servers@[0].username == username,
        multi.servers@[0].password == password,
        multi.servers@[0].token is None,
        multi.servers@[0].user_id is None,
{
    let active = name.clone();
    let entry = ServerEntry { name, server_url, username, password, token: None, user_id: None };
    let mut servers: Vec<ServerEntry> = Vec::new();
    servers.push(entry);
    MultiServerConfig { active, servers }
}

/// Replacing a server entry by one with the same name changes no name lookup.
proof fn lemma_first_named_same_names(servers: Seq<ServerEntry>, i: int, e: ServerEntry, name: Seq<char>)
    requires
        0 <= i < servers.len(),
        e.name@ == servers[i].name@,
    ensures
        first_named(servers.update(i, e), name) == first_named(servers, name),
    decreases servers.len(),
{
    let u = servers.update(i, e);
    if i > 0 {
        assert(u.drop_first() =~= servers.drop_first().update(i - 1, e));
        lemma_first_named_same_names(servers.drop_first(), i - 1, e, name);
    } else {
        assert(u.drop_first() =~= servers.drop_first());
    }
}

/// After a sign-in is recorded on the server called `name` (see
/// [`MultiServerConfig::update_server`]), every name finds the same server as before, and
/// looking that server up (see [`get_server_config`]) gives its settings with the recorded
/// token and user id.
pub proof fn lemma_recorded_sign_in_is_found(servers: Seq<ServerEntry>, name: Seq<char>, c: Config, any: Seq<char>)
    requires
        first_named(servers, name) is Some,
    ensures
        ({
            let i = first_named(servers, name)->0;
            let updated = servers.update(i, ServerEntry { token: c.token, user_id: c.user_id, ..servers[i] });
            &&& first_named(updated, any) == first_named(servers, any)
            &&& first_named(updated, name) == Some(i)
            &&& entry_config(updated[i]) == (Config { token: c.token, user_id: c.user_id, ..entry_config(servers[i]) })
        }),
{
    let i = first_named(servers, name)->0;
    lemma_first_named_bounds(servers, name);
    let e = ServerEntry { token: c.token, user_id: c.user_id, ..servers[i] };
    lemma_first_named_same_names(servers, i, e, any);
    lemma_first_named_same_names(servers, i, e, name);
}

} // verus!
