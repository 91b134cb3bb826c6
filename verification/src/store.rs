//! Account repository: persisted user records with the uniqueness
//! invariants a database schema would enforce — unique emails, unique ids,
//! and at most one holder of any verification token — plus the lifecycle
//! invariant that exactly the unverified accounts carry a token.

use vstd::prelude::*;

verus! {

/// One persisted account record.
pub struct User {
    pub id: u128,
    pub email: String,
    pub password_hash: String,
    pub phone_number: Option<String>,
    pub email_verified: bool,
    pub verification_token: Option<u128>,
    pub phone_verified: bool,
    pub phone_verification_code: Option<String>,
    pub created_at: u64,
}

/// The mathematical image of a `User` record.
pub ghost struct UserView {
    pub id: u128,
    pub email: Seq<char>,
    pub password_hash: Seq<char>,
    pub phone_number: Option<Seq<char>>,
    pub email_verified: bool,
    pub verification_token: Option<u128>,
    pub phone_verified: bool,
    pub phone_verification_code: Option<Seq<char>>,
    pub created_at: u64,
}

impl View for User {
    type V = UserView;

    open spec fn view(&self) -> UserView {
        UserView {
            id: self.id,
            email: self.email@,
            password_hash: self.password_hash@,
            phone_number: self.phone_number.deep_view(),
            email_verified: self.email_verified,
            verification_token: self.verification_token,
            phone_verified: self.phone_verified,
            phone_verification_code: self.phone_verification_code.deep_view(),
            created_at: self.created_at,
        }
    }
}

/// Some account carries this email.
pub open spec fn has_email(s: Seq<UserView>, email: Seq<char>) -> bool {
    exists|i: int| 0 <= i < s.len() && s[i].email == email
}

/// The index of the account carrying this email (unique under `wf`).
pub open spec fn email_index(s: Seq<UserView>, email: Seq<char>) -> int {
    choose|i: int| 0 <= i < s.len() && s[i].email == email
}

/// The account carrying this email (meaningful when `has_email` holds).
pub open spec fn account_with_email(s: Seq<UserView>, email: Seq<char>) -> UserView {
    s[email_index(s, email)]
}

/// Some account carries this id.
pub open spec fn has_id(s: Seq<UserView>, id: u128) -> bool {
    exists|i: int| 0 <= i < s.len() && s[i].id == id
}

/// The index of the account carrying this id (unique under `wf`).
pub open spec fn id_index(s: Seq<UserView>, id: u128) -> int {
    choose|i: int| 0 <= i < s.len() && s[i].id == id
}

/// The account carrying this id (meaningful when `has_id` holds).
pub open spec fn account_with_id(s: Seq<UserView>, id: u128) -> UserView {
    s[id_index(s, id)]
}

/// Some account currently holds this verification token.
pub open spec fn has_token(s: Seq<UserView>, token: u128) -> bool {
    exists|i: int| 0 <= i < s.len() && s[i].verification_token == Some(token)
}

/// The index of the account holding this token (unique under `wf`).
pub open spec fn token_index(s: Seq<UserView>, token: u128) -> int {
    choose|i: int| 0 <= i < s.len() && s[i].verification_token == Some(token)
}

/// The record would collide with a token some account already holds.
pub open spec fn token_clash(s: Seq<UserView>, token: Option<u128>) -> bool {
    token matches Some(t) && has_token(s, t)
}

/// No account other than the one at `i` carries this email.
pub open spec fn email_free_except(s: Seq<UserView>, email: Seq<char>, i: int) -> bool {
    forall|j: int| 0 <= j < s.len() && j != i ==> #[trigger] s[j].email != email
}

/// No account other than the one at `i` holds this token.
pub open spec fn token_free_except(s: Seq<UserView>, token: Option<u128>, i: int) -> bool {
    forall|j: int|
        0 <= j < s.len() && j != i ==> !(token matches Some(t) && #[trigger] s[j].verification_token
            == Some(t))
}

/// Repository well-formedness: emails, ids and held tokens are unique, and
/// exactly the unverified accounts carry a verification token.
pub open spec fn wf(s: Seq<UserView>) -> bool {
    &&& forall|i: int, j: int|
        #![trigger s[i], s[j]]
        0 <= i < s.len() && 0 <= j < s.len() && i != j ==> s[i].email != s[j].email
    &&& forall|i: int, j: int|
        #![trigger s[i], s[j]]
        0 <= i < s.len() && 0 <= j < s.len() && i != j ==> s[i].id != s[j].id
    &&& forall|i: int, j: int|
        #![trigger s[i], s[j]]
        0 <= i < s.len() && 0 <= j < s.len() && i != j ==> !(s[i].verification_token is Some
            && s[i].verification_token == s[j].verification_token)
    &&& forall|i: int|
        0 <= i < s.len() ==> (#[trigger] s[i].email_verified <==> s[i].verification_token is None)
}

/// The record at `i`, its verification state replaced.
pub open spec fn with_verification(u: UserView, verified: bool, token: Option<u128>) -> UserView {
    UserView {
        id: u.id,
        email: u.email,
        password_hash: u.password_hash,
        phone_number: u.phone_number,
        email_verified: verified,
        verification_token: token,
        phone_verified: u.phone_verified,
        phone_verification_code: u.phone_verification_code,
        created_at: u.created_at,
    }
}

/// The record, its contact fields replaced.
pub open spec fn with_contact(
    u: UserView,
    email: Seq<char>,
    phone_number: Option<Seq<char>>,
) -> UserView {
    UserView {
        id: u.id,
        email: email,
        password_hash: u.password_hash,
        phone_number: phone_number,
        email_verified: u.email_verified,
        verification_token: u.verification_token,
        phone_verified: u.phone_verified,
        phone_verification_code: u.phone_verification_code,
        created_at: u.created_at,
    }
}

/// The record, its credential hash replaced.
pub open spec fn with_credentials(u: UserView, password_hash: Seq<char>) -> UserView {
    UserView {
        id: u.id,
        email: u.email,
        password_hash: password_hash,
        phone_number: u.phone_number,
        email_verified: u.email_verified,
        verification_token: u.verification_token,
        phone_verified: u.phone_verified,
        phone_verification_code: u.phone_verification_code,
        created_at: u.created_at,
    }
}

/// An account found at a position with a given email is the account the
/// email maps to: under `wf` the email identifies exactly one index.
pub proof fn lemma_email_at(s: Seq<UserView>, i: int)
    requires
        wf(s),
        0 <= i < s.len(),
    ensures
        has_email(s, s[i].email),
        email_index(s, s[i].email) == i,
        account_with_email(s, s[i].email) == s[i],
{
    assert(has_email(s, s[i].email));
    let k = email_index(s, s[i].email);
    assert(0 <= k < s.len() && s[k].email == s[i].email);
    assert(k == i);
}

/// Under `wf` an id identifies exactly one index.
pub proof fn lemma_id_at(s: Seq<UserView>, i: int)
    requires
        wf(s),
        0 <= i < s.len(),
    ensures
        has_id(s, s[i].id),
        id_index(s, s[i].id) == i,
        account_with_id(s, s[i].id) == s[i],
{
    assert(has_id(s, s[i].id));
    let k = id_index(s, s[i].id);
    assert(0 <= k < s.len() && s[k].id == s[i].id);
    assert(k == i);
}

/// Under `wf` a held verification token identifies exactly one index.
pub proof fn lemma_token_at(s: Seq<UserView>, i: int, t: u128)
    requires
        wf(s),
        0 <= i < s.len(),
        s[i].verification_token == Some(t),
    ensures
        has_token(s, t),
        token_index(s, t) == i,
{
    assert(has_token(s, t));
    let k = token_index(s, t);
    assert(0 <= k < s.len() && s[k].verification_token == Some(t));
    assert(k == i);
}

/// Two string slices are equal exactly when their character sequences are.
fn str_eq(a: &str, b: &str) -> (r: bool)
    ensures
        r == (a@ == b@),
{
    let n = a.unicode_len();
    let m = b.unicode_len();
    if n != m {
        return false;
    }
    let mut i: usize = 0;
    while i < n
        invariant
            i <= n,
            n == a@.len() && n == b@.len(),
            forall|j: int| 0 <= j < i ==> a@[j] == b@[j],
        decreases n - i,
    {
        if a.get_char(i) != b.get_char(i) {
            return false;
        }
        i += 1;
    }
    proof {
        assert(a@ =~= b@);
    }
    true
}

/// Why an atomic check-and-insert refused the record.
#[derive(Debug, Clone, Copy, PartialEq, Eq, Structural)]
pub enum InsertError {
    DuplicateEmail,
    DuplicateId,
    DuplicateToken,
}

/// The in-memory account repository. Every mutating operation is an atomic
/// check-and-update: the check and the write happen under one exclusive
/// borrow, so no interleaving can separate them.
pub struct AccountStore {
    accounts: Vec<User>,
}

impl View for AccountStore {
    type V = Seq<UserView>;

    closed spec fn view(&self) -> Seq<UserView> {
        self.accounts@.map_values(|u: User| u@)
    }
}

impl AccountStore {
    /// An empty repository.
    pub fn new() -> (r: AccountStore)
        ensures
            r@ == Seq::<UserView>::empty(),
            wf(r@),
    {
        let r = AccountStore { accounts: Vec::new() };
        proof {
            assert(r@ =~= Seq::<UserView>::empty());
        }
        r
    }

    /// How many accounts are stored.
    pub fn len(&self) -> (r: usize)
        ensures
            r == self@.len(),
    {
        self.accounts.len()
    }

    /// Read the record at a position.
    pub fn get(&self, i: usize) -> (r: &User)
        requires
            i < self@.len(),
        ensures
            r@ == self@[i as int],
    {
        &self.accounts[i]
    }

    /// Look an account up by its (unique) email.
    pub fn find_by_email(&self, email: &str) -> (r: Option<usize>)
        ensures
            r is Some <==> has_email(self@, email@),
            r matches Some(i) ==> i < self@.len() && self@[i as int].email == email@,
    {
        let n = self.accounts.len();
        let mut i: usize = 0;
        while i < n
            invariant
                i <= n == self@.len(),
                forall|j: int| 0 <= j < i ==> #[trigger] self@[j].email != email@,
            decreases n - i,
        {
            if str_eq(self.accounts[i].email.as_str(), email) {
                return Some(i);
            }
            i += 1;
        }
        None
    }

    /// Look an account up by its (unique) id.
    pub fn find_by_id(&self, id: u128) -> (r: Option<usize>)
        ensures
            r is Some <==> has_id(self@, id),
            r matches Some(i) ==> i < self@.len() && self@[i as int].id == id,
    {
        let n = self.accounts.len();
        let mut i: usize = 0;
        while i < n
            invariant
                i <= n == self@.len(),
                forall|j: int| 0 <= j < i ==> #[trigger] self@[j].id != id,
            decreases n - i,
        {
            if self.accounts[i].id == id {
                return Some(i);
            }
            i += 1;
        }
        None
    }

    /// Look an account up by the verification token it currently holds.
    pub fn find_by_verification_token(&self, token: u128) -> (r: Option<usize>)
        ensures
            r is Some <==> has_token(self@, token),
            r matches Some(i) ==> i < self@.len() && self@[i as int].verification_token == Some(
                token,
            ),
    {
        let n = self.accounts.len();
        let mut i: usize = 0;
        while i < n
            invariant
                i <= n == self@.len(),
                forall|j: int| 0 <= j < i ==> #[trigger] self@[j].verification_token != Some(token),
            decreases n - i,
        {
            let found = match self.accounts[i].verification_token {
                Some(t) => t == token,
                None => false,
            };
            if found {
                return Some(i);
            }
            i += 1;
        }
        None
    }

    /// Atomic check-and-insert: the record goes in exactly when its email,
    /// id and token collide with nothing already stored; otherwise the
    /// repository is unchanged and the answer says which check failed,
    /// email first, then id, then token.
    pub fn insert(&mut self, user: User) -> (r: Result<(), InsertError>)
        requires
            wf(old(self)@),
            user@.email_verified <==> user@.verification_token is None,
        ensures
            wf(final(self)@),
            r is Ok ==> final(self)@ == old(self)@.push(user@),
            r is Err ==> final(self)@ == old(self)@,
            r is Ok <==> !has_email(old(self)@, user@.email) && !has_id(old(self)@, user@.id)
                && !token_clash(old(self)@, user@.verification_token),
            r == Err::<(), InsertError>(InsertError::DuplicateEmail) <==> has_email(
                old(self)@,
                user@.email,
            ),
            r == Err::<(), InsertError>(InsertError::DuplicateId) <==> !has_email(
                old(self)@,
                user@.email,
            ) && has_id(old(self)@, user@.id),
            r == Err::<(), InsertError>(InsertError::DuplicateToken) <==> !has_email(
                old(self)@,
                user@.email,
            ) && !has_id(old(self)@, user@.id) && token_clash(
                old(self)@,
                user@.verification_token,
            ),
    {
        if self.find_by_email(user.email.as_str()).is_some() {
            return Err(InsertError::DuplicateEmail);
        }
        if self.find_by_id(user.id).is_some() {
            return Err(InsertError::DuplicateId);
        }
        let clash = match user.verification_token {
            Some(t) => self.find_by_verification_token(t).is_some(),
            None => false,
        };
        if clash {
            return Err(InsertError::DuplicateToken);
        }
        let ghost s0 = self@;
        let ghost v = user@;
        self.accounts.push(user);
        proof {
            assert(self@ =~= s0.push(v));
            let s1 = self@;
            assert forall|i: int, j: int|
                0 <= i < s1.len() && 0 <= j < s1.len() && i != j implies #[trigger] s1[i].email
                != #[trigger] s1[j].email by {
                if i < s0.len() && j < s0.len() {
                } else if j == s0.len() {
                    assert(s1[i] == s0[i]);
                    assert(!(0 <= i < s0.len() && s0[i].email == v.email));
                } else {
                    assert(s1[j] == s0[j]);
                    assert(!(0 <= j < s0.len() && s0[j].email == v.email));
                }
            }
            assert forall|i: int, j: int|
                0 <= i < s1.len() && 0 <= j < s1.len() && i != j implies #[trigger] s1[i].id
                != #[trigger] s1[j].id by {
                if i < s0.len() && j < s0.len() {
                } else if j == s0.len() {
                    assert(!(0 <= i < s0.len() && s0[i].id == v.id));
                } else {
                    assert(!(0 <= j < s0.len() && s0[j].id == v.id));
                }
            }
            assert forall|i: int, j: int|
                0 <= i < s1.len() && 0 <= j < s1.len() && i != j implies !((#[trigger] s1[i]).verification_token is Some
                && s1[i].verification_token == (#[trigger] s1[j]).verification_token) by {
                if i < s0.len() && j < s0.len() {
                } else if j == s0.len() {
                    assert(s1[i] == s0[i]);
                    assert(s0[i].verification_token == s1[i].verification_token);
                } else {
                    assert(s1[j] == s0[j]);
                    assert(s0[j].verification_token == s1[j].verification_token);
                }
            }
        }
        Ok(())
    }

    /// Atomic update of the verification state at one position. The caller
    /// shows that a newly held token collides with no other account, and
    /// that the flag and the token agree with the lifecycle invariant.
    pub fn update_verification(&mut self, i: usize, verified: bool, token: Option<u128>)
        requires
            wf(old(self)@),
            i < old(self)@.len(),
            verified <==> token is None,
            token_free_except(old(self)@, token, i as int),
        ensures
            wf(final(self)@),
            final(self)@ == old(self)@.update(
                i as int,
                with_verification(old(self)@[i as int], verified, token),
            ),
    {
        let ghost s0 = self@;
        let mut u = self.accounts.remove(i);
        u.email_verified = verified;
        u.verification_token = token;
        self.accounts.insert(i, u);
        proof {
            let s1 = self@;
            assert(s1 =~= s0.update(i as int, with_verification(s0[i as int], verified, token)));
            assert forall|k: int, l: int|
                0 <= k < s1.len() && 0 <= l < s1.len() && k != l implies !((#[trigger] s1[k]).verification_token is Some
                && s1[k].verification_token == (#[trigger] s1[l]).verification_token) by {
                if k != i && l != i {
                    assert(s1[k] == s0[k] && s1[l] == s0[l]);
                } else if k == i {
                    if token matches Some(t) {
                        assert(!(token matches Some(t2) && s0[l].verification_token == Some(t2)));
                    }
                } else {
                    if s1[l].verification_token matches Some(t) {
                        assert(!(token matches Some(t2) && s0[k].verification_token == Some(t2)));
                    }
                }
            }
        }
    }

    /// Atomic update of the stored credential hash at one position.
    pub fn update_credentials(&mut self, i: usize, password_hash: String)
        requires
            wf(old(self)@),
            i < old(self)@.len(),
        ensures
            wf(final(self)@),
            final(self)@ == old(self)@.update(
                i as int,
                with_credentials(old(self)@[i as int], password_hash@),
            ),
    {
        let ghost s0 = self@;
        let mut u = self.accounts.remove(i);
        u.password_hash = password_hash;
        self.accounts.insert(i, u);
        proof {
            assert(self@ =~= s0.update(i as int, with_credentials(s0[i as int], u@.password_hash)));
        }
    }

    /// Atomic update of the contact fields at one position. The caller
    /// shows that the new email collides with no other account.
    pub fn set_contact(&mut self, i: usize, email: String, phone_number: Option<String>)
        requires
            wf(old(self)@),
            i < old(self)@.len(),
            email_free_except(old(self)@, email@, i as int),
        ensures
            wf(final(self)@),
            final(self)@ == old(self)@.update(
                i as int,
                with_contact(old(self)@[i as int], email@, phone_number.deep_view()),
            ),
    {
        let ghost s0 = self@;
        let ghost e = email@;
        let ghost p = phone_number.deep_view();
        let mut u = self.accounts.remove(i);
        u.email = email;
        u.phone_number = phone_number;
        self.accounts.insert(i, u);
        proof {
            let s1 = self@;
            assert(s1 =~= s0.update(i as int, with_contact(s0[i as int], e, p)));
            assert forall|k: int, l: int|
                0 <= k < s1.len() && 0 <= l < s1.len() && k != l implies #[trigger] s1[k].email
                != #[trigger] s1[l].email by {
                if k != i && l != i {
                    assert(s1[k] == s0[k] && s1[l] == s0[l]);
                } else if k == i {
                    assert(s0[l].email != e);
                } else {
                    assert(s0[k].email != e);
                }
            }
        }
    }

    /// Atomic removal of the record at one position; the record is handed
    /// back.
    pub fn remove_at(&mut self, i: usize) -> (r: User)
        requires
            wf(old(self)@),
            i < old(self)@.len(),
        ensures
            wf(final(self)@),
            final(self)@ == old(self)@.remove(i as int),
            r@ == old(self)@[i as int],
    {
        let ghost s0 = self@;
        let u = self.accounts.remove(i);
        proof {
            assert(self@ =~= s0.remove(i as int));
            let s1 = self@;
            assert forall|k: int, l: int|
                0 <= k < s1.len() && 0 <= l < s1.len() && k != l implies #[trigger] s1[k].email
                != #[trigger] s1[l].email && s1[k].id != s1[l].id
                && !(s1[k].verification_token is Some && s1[k].verification_token
                == s1[l].verification_token) by {
                let k0 = if k < i { k } else { k + 1 };
                let l0 = if l < i { l } else { l + 1 };
                assert(s1[k] == s0[k0] && s1[l] == s0[l0]);
            }
            assert forall|k: int| 0 <= k < s1.len() implies (#[trigger] s1[k].email_verified
                <==> s1[k].verification_token is None) by {
                let k0 = if k < i { k } else { k + 1 };
                assert(s1[k] == s0[k0]);
            }
        }
        u
    }
}

} // verus!
