//! The configuration of the program.

use vstd::prelude::*;

verus! {

/// How email is sent and to whom.
#[derive(Debug)]
pub struct Smtp {
    pub server: String,
    pub from: String,
    pub user: String,
    pub password: String,
    pub recievers: Vec<String>,
}

/// The settings that the web interface shows and changes.
#[derive(Debug, Clone, Copy, PartialEq, Eq, Structural)]
pub struct Config {
    pub web_port: u16,
    pub ping_interval: u32,
}

/// One who may log in.
#[derive(Debug)]
pub struct User {
    pub name: String,
    pub password: String,
}

/// Everything that is configured.
#[derive(Debug)]
pub struct Configuration {
    pub config: Config,
    pub smtp: Option<Smtp>,
    pub users: Vec<User>,
}

/// A copy of a list of texts.
pub fn copy_texts(texts: &Vec<String>) -> (copy: Vec<String>)
    ensures
        copy@ == texts@,
{
    let mut copy: Vec<String> = Vec::new();
    let mut i: usize = 0;
    while i < texts.len()
        invariant
            i <= texts@.len(),
            copy@ == texts@.take(i as int),
        decreases texts@.len() - i,
    {
        copy.push(texts[i].clone());
        i = i + 1;
    }
    copy
}

impl Clone for Smtp {
    fn clone(&self) -> (other: Self)
        ensures
            other.server == self.server,
            other.from == self.from,
            other.user == self.user,
            other.password == self.password,
            other.recievers@ == self.recievers@,
    {
        let recievers = copy_texts(&self.recievers);
        Smtp {
            server: self.server.clone(),
            from: self.from.clone(),
            user: self.user.clone(),
            password: self.password.clone(),
            recievers,
        }
    }
}

impl Clone for User {
    fn clone(&self) -> (other: Self)
        ensures
            other == *self,
    {
        User { name: self.name.clone(), password: self.password.clone() }
    }
}

impl Config {
    /// Whether the settings may replace the present ones: neither the port nor the
    /// interval may be zero.
    pub open spec fn is_acceptable(self) -> bool {
        self.web_port != 0 && self.ping_interval != 0
    }

    /// Whether the settings may replace the present ones.
    pub fn acceptable(&self) -> (ok: bool)
        ensures
            ok == self.is_acceptable(),
    {
        self.web_port != 0 && self.ping_interval != 0
    }
}

impl User {
    /// Whether `other` has the same name and the same password.
    pub open spec fn matches(&self, other: &User) -> bool {
        self.name@ == other.name@ && self.password@ == other.password@
    }

    /// Whether `other` has the same name and the same password.
    pub fn same(&self, other: &User) -> (same: bool)
        ensures
            same == self.matches(other),
    {
        self.name == other.name && self.password == other.password
    }
}

impl Configuration {
    /// Whether `user` is among those who may log in.
    pub open spec fn knows(&self, user: &User) -> bool {
        exists|i: int| 0 <= i < self.users@.len() && (#[trigger] self.users@[i]).matches(user)
    }

    /// Whether `user` is among those who may log in.
    pub fn has_user(&self, user: &User) -> (found: bool)
        ensures
            found == self.knows(user),
    {
        let mut i: usize = 0;
        while i < self.users.len()
            invariant
                i <= self.users@.len(),
                forall|j: int| 0 <= j < i ==> !(#[trigger] self.users@[j]).matches(user),
            decreases self.users@.len() - i,
        {
            if self.users[i].same(user) {
                return true;
            }
            i = i + 1;
        }
        false
    }

    /// Those who receive the notifications: the receivers of the mail settings, and
    /// nobody where mail is not set up.
    pub open spec fn receivers_of(&self) -> Seq<String> {
        match self.smtp {
            Some(smtp) => smtp.recievers@,
            None => Seq::empty(),
        }
    }

    /// Those who receive the notifications.
    pub fn receivers(&self) -> (list: Vec<String>)
        ensures
            list@ == self.receivers_of(),
    {
        match &self.smtp {
            Some(smtp) => copy_texts(&smtp.recievers),
            None => Vec::new(),
        }
    }

    /// Replaces the settings by `config` if they are acceptable, and says whether
    /// it did.
    pub fn apply(&mut self, config: Config) -> (applied: bool)
        ensures
            applied == config.is_acceptable(),
            final(self).config == if applied {
                config
            } else {
                old(self).config
            },
            final(self).smtp == old(self).smtp,
            final(self).users == old(self).users,
    {
        if config.acceptable() {
            self.config = config;
            true
        } else {
            false
        }
    }
}

} // verus!
