use vstd::prelude::*;

use crate::entity::{SessionView, User, UserSessions, UserStatus, UserView};
use crate::error::StoreError;

verus! {

/// An account with its status set to `Active`.
pub open spec fn activated(u: UserView) -> UserView {
    UserView { status: UserStatus::Active, ..u }
}

/// Account persistence, keyed by email (emails are unique). A failed write leaves it unchanged.
pub trait UserPort {
    /// The accounts held, by email. Implementations whose contents are not modelled (a
    /// database) leave it unspecified.
    closed spec fn accounts(&self) -> Map<Seq<char>, UserView> {
        arbitrary()
    }

    fn find_by_email(&self, email: &str) -> (r: Result<Option<User>, StoreError>)
        ensures
            r matches Ok(o) ==> match o {
                Some(u) => self.accounts().contains_key(email@) && self.accounts()[email@] == u@,
                None => !self.accounts().contains_key(email@),
            },
    ;

    fn save(&mut self, user: &User) -> (r: Result<(), StoreError>)
        ensures
            r is Ok ==> final(self).accounts() == old(self).accounts().insert(user.email@, user@),
            r is Err ==> final(self).accounts() == old(self).accounts(),
    ;

    /// Marks the account under `email` as `Active`.
    fn verify_email(&mut self, email: &str) -> (r: Result<(), StoreError>)
        ensures
            r is Ok && old(self).accounts().contains_key(email@) ==> final(self).accounts()
                == old(self).accounts().insert(email@, activated(old(self).accounts()[email@])),
            r is Ok && !old(self).accounts().contains_key(email@) ==> final(self).accounts() == old(self).accounts(),
            r is Err ==> final(self).accounts() == old(self).accounts(),
    ;

    /// Replaces the stored hash form of the account under `email`.
    fn update_password(&mut self, email: &str, password: &str) -> (r: Result<(), StoreError>)
        ensures
            r is Ok && old(self).accounts().contains_key(email@) ==> final(self).accounts()
                == old(self).accounts().insert(email@, UserView { password: password@, ..old(self).accounts()[email@] }),
            r is Ok && !old(self).accounts().contains_key(email@) ==> final(self).accounts() == old(self).accounts(),
            r is Err ==> final(self).accounts() == old(self).accounts(),
    ;
}

/// Persistence of login records, append-only. A failed write leaves it unchanged.
pub trait UserSessionPort {
    /// The records held, oldest first. Implementations whose contents are not modelled
    /// (a database) leave it unspecified.
    closed spec fn records(&self) -> Seq<SessionView> {
        arbitrary()
    }

    fn save(&mut self, session: &UserSessions) -> (r: Result<(), StoreError>)
        ensures
            r is Ok ==> final(self).records() == old(self).records().push(session@),
            r is Err ==> final(self).records() == old(self).records(),
    ;
}

/// Hands a code to the mail service. Delivery is not awaited and its outcome is not reported.
pub trait OtpMailer {
    /// The (recipient, code) pairs handed over so far, oldest first. Implementations whose
    /// hand-overs are not modelled (a background task) leave it unspecified.
    closed spec fn sent(&self) -> Seq<(Seq<char>, Seq<char>)> {
        arbitrary()
    }

    fn send_otp_email(&mut self, recipient: &str, otp_code: &str)
        ensures
            final(self).sent() == old(self).sent().push((recipient@, otp_code@)),
    ;
}

/// The accounts of a log of saved records, later records overriding earlier ones.
pub open spec fn user_log_accounts(log: Seq<User>) -> Map<Seq<char>, UserView>
    decreases log.len(),
{
    if log.len() == 0 {
        Map::empty()
    } else {
        user_log_accounts(log.drop_last()).insert(log.last().email@, log.last()@)
    }
}

proof fn lemma_accounts_keyed_by_email(log: Seq<User>, email: Seq<char>)
    requires
        user_log_accounts(log).contains_key(email),
    ensures
        user_log_accounts(log)[email].email == email,
    decreases log.len(),
{
    if log.len() > 0 && log.last().email@ != email {
        lemma_accounts_keyed_by_email(log.drop_last(), email);
    }
}

/// In-process account persistence, kept as a log of saved records.
pub struct MemoryUsers {
    log: Vec<User>,
}

impl MemoryUsers {
    pub fn new() -> (s: MemoryUsers)
        ensures
            s.accounts() == Map::<Seq<char>, UserView>::empty(),
    {
        MemoryUsers { log: Vec::new() }
    }

    fn latest(&self, email: &str) -> (r: Option<&User>)
        ensures
            match r {
                Some(u) => self.accounts().contains_key(email@) && self.accounts()[email@] == u@,
                None => !self.accounts().contains_key(email@),
            },
    {
        let k = String::from_str(email);
        let mut i: usize = self.log.len();
        assert(self.log@.take(i as int) =~= self.log@);
        while i > 0
            invariant
                i <= self.log@.len(),
                k@ == email@,
                user_log_accounts(self.log@).contains_key(email@) == user_log_accounts(self.log@.take(i as int)).contains_key(email@),
                user_log_accounts(self.log@).contains_key(email@) ==> user_log_accounts(self.log@)[email@] == user_log_accounts(self.log@.take(i as int))[email@],
            decreases i,
        {
            let ghost prefix = self.log@.take(i as int);
            assert(prefix.drop_last() =~= self.log@.take(i - 1));
            assert(prefix.last() == self.log@[i - 1]);
            if self.log[i - 1].email == k {
                return Some(&self.log[i - 1]);
            }
            i = i - 1;
        }
        assert(self.log@.take(0) =~= Seq::<User>::empty());
        None
    }

    fn append(&mut self, user: User)
        ensures
            final(self).accounts() == old(self).accounts().insert(user.email@, user@),
    {
        let ghost before = self.log@;
        self.log.push(user);
        assert(self.log@.drop_last() =~= before);
    }
}

impl UserPort for MemoryUsers {
    closed spec fn accounts(&self) -> Map<Seq<char>, UserView> {
        user_log_accounts(self.log@)
    }

    fn find_by_email(&self, email: &str) -> (r: Result<Option<User>, StoreError>) {
        match self.latest(email) {
            Some(u) => Ok(Some(u.duplicate())),
            None => Ok(None),
        }
    }

    fn save(&mut self, user: &User) -> (r: Result<(), StoreError>) {
        self.append(user.duplicate());
        Ok(())
    }

    fn verify_email(&mut self, email: &str) -> (r: Result<(), StoreError>) {
        let updated = match self.latest(email) {
            Some(u) => Some(u.with_status(UserStatus::Active)),
            None => None,
        };
        proof {
            if self.accounts().contains_key(email@) {
                lemma_accounts_keyed_by_email(self.log@, email@);
            }
        }
        if let Some(u) = updated {
            self.append(u);
        }
        Ok(())
    }

    fn update_password(&mut self, email: &str, password: &str) -> (r: Result<(), StoreError>) {
        let updated = match self.latest(email) {
            Some(u) => Some(u.with_password(password)),
            None => None,
        };
        proof {
            if self.accounts().contains_key(email@) {
                lemma_accounts_keyed_by_email(self.log@, email@);
            }
        }
        if let Some(u) = updated {
            self.append(u);
        }
        Ok(())
    }
}

/// In-process persistence of login records.
pub struct MemorySessions {
    list: Vec<UserSessions>,
}

impl MemorySessions {
    pub fn new() -> (s: MemorySessions)
        ensures
            s.records() == Seq::<SessionView>::empty(),
    {
        MemorySessions { list: Vec::new() }
    }

    pub fn len(&self) -> (n: usize)
        ensures
            n == self.records().len(),
    {
        self.list.len()
    }
}

impl UserSessionPort for MemorySessions {
    closed spec fn records(&self) -> Seq<SessionView> {
        self.list@.map_values(|s: UserSessions| s@)
    }

    fn save(&mut self, session: &UserSessions) -> (r: Result<(), StoreError>) {
        let copy = UserSessions {
            id: session.id.clone(),
            user_id: session.user_id.clone(),
            login_ip: session.login_ip.clone(),
            login_device: session.login_device.clone(),
            login_location: session.login_location.clone(),
            created_at: session.created_at,
            updated_at: session.updated_at,
            deleted_at: session.deleted_at,
        };
        self.list.push(copy);
        assert(self.list@.map_values(|s: UserSessions| s@) =~= old(self).list@.map_values(|s: UserSessions| s@).push(session@));
        Ok(())
    }
}

/// A mailer that keeps what it was handed, in order: (recipient, code).
pub struct Outbox {
    pub sent: Vec<(String, String)>,
}

impl Outbox {
    pub fn new() -> (o: Outbox)
        ensures
            o.sent() == Seq::<(Seq<char>, Seq<char>)>::empty(),
    {
        let o = Outbox { sent: Vec::new() };
        assert(o.sent() =~= Seq::<(Seq<char>, Seq<char>)>::empty());
        o
    }
}

impl OtpMailer for Outbox {
    closed spec fn sent(&self) -> Seq<(Seq<char>, Seq<char>)> {
        self.sent@.map_values(|m: (String, String)| (m.0@, m.1@))
    }

    fn send_otp_email(&mut self, recipient: &str, otp_code: &str) {
        self.sent.push((String::from_str(recipient), String::from_str(otp_code)));
        assert(self.sent() =~= old(self).sent().push((recipient@, otp_code@)));
    }
}

} // verus!
