//! Configuration values: the Plex server address, the access token and the
//! Discord application the presence is shown for.

use vstd::prelude::*;

verus! {

/// The Discord application id under which the presence is published.
pub open spec fn default_application_id() -> Seq<char> {
    "1057190283017719828"@
}

/// Name of the lock file kept in the configuration directory.
pub open spec fn lockfile_name() -> Seq<char> {
    "plex-presense.lock"@
}

/// A relative file name appended to a directory path, with a `/` between
/// them unless the directory is empty or already ends with one.
pub open spec fn path_joined(dir: Seq<char>, name: Seq<char>) -> Seq<char> {
    if dir.len() == 0 || dir.last() == '/' {
        dir + name
    } else {
        dir + seq!['/'] + name
    }
}

/// `host:port`, the origin that Plex requests are sent to.
pub open spec fn origin_of(host: Seq<char>, port: Seq<char>) -> Seq<char> {
    host + seq![':'] + port
}

/// Returns the Discord application id used by default.
pub fn discord_application_id() -> (r: String)
    ensures
        r@ == default_application_id(),
{
    String::from_str("1057190283017719828")
}

pub struct Config {
    pub host: String,
    pub port: String,
    pub origin: String,
    pub token: String,
    pub discord_application_id: String,
}

impl Clone for Config {
    fn clone(&self) -> (c: Self)
        ensures
            c == *self,
    {
        Config {
            host: self.host.clone(),
            port: self.port.clone(),
            origin: self.origin.clone(),
            token: self.token.clone(),
            discord_application_id: self.discord_application_id.clone(),
        }
    }
}

impl Default for Config {
    /// The configuration written for a user to complete: every field empty
    /// but the Discord application id.
    fn default() -> (c: Self)
        ensures
            c.host@ == Seq::<char>::empty(),
            c.port@ == Seq::<char>::empty(),
            c.origin@ == Seq::<char>::empty(),
            c.token@ == Seq::<char>::empty(),
            c.discord_application_id@ == default_application_id(),
    {
        Config {
            host: String::new(),
            port: String::new(),
            origin: String::new(),
            token: String::new(),
            discord_application_id: discord_application_id(),
        }
    }
}

impl Config {
    /// The configuration that loading a configuration file yields, given the
    /// `host`, `port` and `token` read from it: the origin is `host:port`
    /// and the Discord application id is the default one.
    pub fn from_file_fields(host: String, port: String, token: String) -> (c: Self)
        ensures
            c.host@ == host@,
            c.port@ == port@,
            c.token@ == token@,
            c.origin@ == origin_of(host@, port@),
            c.discord_application_id@ == default_application_id(),
    {
        let mut origin = host.clone();
        origin.append(":");
        origin.append(port.as_str());
        proof {
            reveal_strlit(":");
        }
        Config {
            host,
            port,
            origin,
            token,
            discord_application_id: discord_application_id(),
        }
    }

    /// Path of the lock file inside the configuration directory `config_dir`.
    pub fn get_lockfile(config_dir: &str) -> (r: String)
        ensures
            r@ == path_joined(config_dir@, lockfile_name()),
    {
        let mut r = String::from_str(config_dir);
        let n = config_dir.unicode_len();
        if n > 0 && config_dir.get_char(n - 1) != '/' {
            r.append("/");
        }
        r.append("plex-presense.lock");
        proof {
            reveal_strlit("/");
        }
        r
    }
}

/// Law: the lock file lies in the configuration directory: its path is
/// the directory's path, at most one `/`, then the file name.
pub proof fn lemma_lockfile_in_dir(dir: Seq<char>)
    ensures
        path_joined(dir, lockfile_name()).take(dir.len() as int) == dir,
        path_joined(dir, lockfile_name()).skip(
            path_joined(dir, lockfile_name()).len() - lockfile_name().len(),
        ) == lockfile_name(),
        path_joined(dir, lockfile_name()).len() <= dir.len() + 1 + lockfile_name().len(),
{
    let p = path_joined(dir, lockfile_name());
    assert(p.take(dir.len() as int) =~= dir);
    assert(p.skip(p.len() - lockfile_name().len()) =~= lockfile_name());
}

/// Law: the origin is the host, one colon, then the port.
pub proof fn lemma_origin_parts(host: Seq<char>, port: Seq<char>)
    ensures
        origin_of(host, port).len() == host.len() + 1 + port.len(),
        origin_of(host, port).take(host.len() as int) == host,
        origin_of(host, port)[host.len() as int] == ':',
        origin_of(host, port).skip(host.len() as int + 1) == port,
{
    let o = origin_of(host, port);
    assert(o.take(host.len() as int) =~= host);
    assert(o.skip(host.len() as int + 1) =~= port);
}

/// Law: a `/` is put between directory and file name exactly when the
/// directory is not empty and does not already end with one.
pub proof fn lemma_lockfile_separator(dir: Seq<char>)
    ensures
        dir.len() == 0 || dir.last() == '/' ==> path_joined(dir, lockfile_name()) == dir
            + lockfile_name(),
        dir.len() > 0 && dir.last() != '/' ==> path_joined(dir, lockfile_name()).len() == dir.len()
            + 1 + lockfile_name().len() && path_joined(dir, lockfile_name())[dir.len() as int]
            == '/',
{
}

} // verus!
