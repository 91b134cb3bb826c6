//! Account lifecycle manager: registration, email verification, resend,
//! login, and the plain read/update/delete operations, orchestrated over
//! the account repository, the credential hasher and the session codec.
//!
//! Per account the state machine is one-way: `Unverified -> Verified`.

use vstd::prelude::*;
use crate::credentials::{bcrypt_verifies, hash_password, verify_password};
use crate::session::{issue_session, jwt_of, SESSION_TTL_SECONDS};
use crate::store::{
    AccountStore, User, UserView, account_with_email, account_with_id, email_index, has_email,
    has_id, has_token, id_index, lemma_email_at, lemma_id_at, lemma_token_at, token_index,
    with_contact, with_verification, wf,
};
use crate::tokens::{fresh_uuid, parse_uuid, uuid_parse, uuid_text};

verus! {

/// Registration input: an address and a plaintext password. The password
/// is hashed at once and never stored.
pub struct CreateUser {
    pub email: String,
    pub password: String,
}

/// Login input: an address and a plaintext password.
pub struct LoginRequest {
    pub email: String,
    pub password: String,
}

/// Contact update input; a missing field keeps the stored value.
pub struct UpdateUserRequest {
    pub email: Option<String>,
    pub phone_number: Option<String>,
}

/// The public projection of an account record, without credentials.
pub struct UserGet {
    pub id: u128,
    pub email: String,
    pub phone_number: Option<String>,
    pub email_verified: bool,
    pub phone_verified: bool,
    pub created_at: u64,
}

/// What a successful registration hands back: the new account id, its
/// verification token, and the token's canonical text for the mail link.
#[derive(Debug)]
pub struct Registration {
    pub user_id: u128,
    pub token: u128,
    pub token_text: String,
}

/// Why a registration was refused.
#[derive(Debug, Clone, Copy, PartialEq, Eq, Structural)]
pub enum RegisterError {
    /// The address is not syntactically valid.
    InvalidEmail,
    /// The address is already taken.
    Duplicate,
    /// Hashing failed or the drawn identifiers collided; nothing was stored.
    Dependency,
}

/// Why an email verification was refused. Unknown, already consumed and
/// malformed tokens are deliberately one signal.
#[derive(Debug, Clone, Copy, PartialEq, Eq, Structural)]
pub enum VerifyError {
    InvalidToken,
}

/// Why a login was refused. A wrong password and an unknown address are
/// deliberately the same signal; an unverified address is distinct.
#[derive(Debug, Clone, Copy, PartialEq, Eq, Structural)]
pub enum LoginError {
    InvalidCredentials,
    EmailNotVerified,
}

/// Why a resend was refused. `DeliveryFailed` is reported by the mail edge
/// when sending fails after the token was already rotated.
#[derive(Debug, Clone, Copy, PartialEq, Eq, Structural)]
pub enum ResendError {
    NotFound,
    DeliveryFailed,
    /// The freshly drawn token collided; nothing was changed.
    Dependency,
}

/// What a resend decided: nothing to do, or a rotated token to mail out.
#[derive(Debug)]
pub enum ResendAction {
    AlreadyVerified,
    Send { token: u128, token_text: String },
}

/// Why a contact update was refused.
#[derive(Debug, Clone, Copy, PartialEq, Eq, Structural)]
pub enum UpdateError {
    NotFound,
    InvalidEmail,
    Duplicate,
}

/// No position other than `i` holds an `'@'`.
pub open spec fn only_at(s: Seq<char>, i: int) -> bool {
    forall|j: int| 0 <= j < s.len() && j != i ==> #[trigger] s[j] != '@'
}

/// A syntactically valid address: exactly one `'@'`, with at least one
/// character on each side of it.
pub open spec fn valid_email(s: Seq<char>) -> bool {
    exists|i: int| #![trigger s[i]] 0 < i < s.len() - 1 && s[i] == '@' && only_at(s, i)
}

/// Check an address for syntactic validity.
pub fn is_valid_email(email: &str) -> (r: bool)
    ensures
        r == valid_email(email@),
{
    let n = email.unicode_len();
    let mut i: usize = 0;
    let mut found = false;
    let mut at: usize = 0;
    while i < n
        invariant
            i <= n == email@.len(),
            found ==> at < i && email@[at as int] == '@' && (forall|j: int|
                0 <= j < i && j != at ==> #[trigger] email@[j] != '@'),
            !found ==> forall|j: int| 0 <= j < i ==> #[trigger] email@[j] != '@',
        decreases n - i,
    {
        if email.get_char(i) == '@' {
            if found {
                proof {
                    let s = email@;
                    assert forall|p: int| !(0 < p < s.len() - 1 && s[p] == '@' && only_at(
                        s,
                        p,
                    )) by {
                        if p != at {
                            assert(s[at as int] == '@');
                        } else {
                            assert(s[i as int] == '@');
                        }
                    }
                }
                return false;
            }
            found = true;
            at = i;
        }
        i += 1;
    }
    if found && at > 0 && at + 1 < n {
        proof {
            assert(only_at(email@, at as int));
        }
        true
    } else {
        proof {
            let s = email@;
            assert forall|p: int| !(0 < p < s.len() - 1 && s[p] == '@' && only_at(s, p)) by {
                if 0 < p < s.len() - 1 {
                    if found {
                        if p != at {
                            assert(s[p] != '@');
                        }
                    } else {
                        assert(s[p] != '@');
                    }
                }
            }
        }
        false
    }
}

/// Register a new account: validate the address, refuse a taken one, hash
/// the password, draw an account id and a verification token, and persist
/// the account unverified. The raw token text is handed back so the mail
/// edge can embed it in the verification link; a mail failure after this
/// point does not unwind the stored account.
pub fn register(store: &mut AccountStore, req: &CreateUser, now: u64) -> (r: Result<
    Registration,
    RegisterError,
>)
    requires
        wf(old(store)@),
    ensures
        wf(final(store)@),
        r == Err::<Registration, RegisterError>(RegisterError::InvalidEmail) <==> !valid_email(
            req.email@,
        ),
        r == Err::<Registration, RegisterError>(RegisterError::Duplicate) <==> valid_email(
            req.email@,
        ) && has_email(old(store)@, req.email@),
        r is Err ==> final(store)@ == old(store)@,
        r == Err::<Registration, RegisterError>(RegisterError::Dependency) ==> valid_email(
            req.email@,
        ) && !has_email(old(store)@, req.email@),
        r matches Ok(reg) ==> ({
            let acc = final(store)@.last();
            &&& valid_email(req.email@)
            &&& !has_email(old(store)@, req.email@)
            &&& final(store)@ == old(store)@.push(acc)
            &&& acc.email == req.email@
            &&& acc.id == reg.user_id
            &&& acc.verification_token == Some(reg.token)
            &&& !acc.email_verified
            &&& acc.phone_number is None
            &&& !acc.phone_verified
            &&& acc.phone_verification_code is None
            &&& acc.created_at == now
            &&& bcrypt_verifies(req.password@, acc.password_hash)
            &&& acc.password_hash.len() == 60
            &&& acc.password_hash[0] == '$'
            &&& uuid_parse(reg.token_text@) == Some(reg.token)
        }),
{
    if !is_valid_email(req.email.as_str()) {
        return Err(RegisterError::InvalidEmail);
    }
    if store.find_by_email(req.email.as_str()).is_some() {
        return Err(RegisterError::Duplicate);
    }
    let hashed = match hash_password(req.password.as_str()) {
        Some(h) => h,
        None => {
            return Err(RegisterError::Dependency);
        },
    };
    let id = fresh_uuid();
    let token = fresh_uuid();
    let token_text = uuid_text(token);
    let user = User {
        id,
        email: req.email.clone(),
        password_hash: hashed,
        phone_number: None,
        email_verified: false,
        verification_token: Some(token),
        phone_verified: false,
        phone_verification_code: None,
        created_at: now,
    };
    let ghost uv = user@;
    match store.insert(user) {
        Ok(()) => Ok(Registration { user_id: id, token, token_text }),
        Err(_) => Err(RegisterError::Dependency),
    }
}

/// After a registration for an address succeeds the store holds that
/// address, so a second registration for the same address must report the
/// duplicate and change nothing.
pub proof fn lemma_duplicate_registration(s: Seq<UserView>, acc: UserView)
    ensures
        has_email(s.push(acc), acc.email),
{
    let s2 = s.push(acc);
    assert(s2[s.len() as int] == acc);
}

/// The store after the account at `i` consumed its verification token:
/// marked verified, token cleared, in one atomic step.
pub open spec fn consumed(s: Seq<UserView>, i: int) -> Seq<UserView> {
    s.update(i, with_verification(s[i], true, None))
}

/// Consume a verification token presented as canonical UUID text: find the
/// account holding it and, in the same exclusive step, mark the account
/// verified and clear the token. A malformed, unknown or already consumed
/// token is one and the same refusal.
pub fn verify_email(store: &mut AccountStore, token_text: &str) -> (r: Result<(), VerifyError>)
    requires
        wf(old(store)@),
    ensures
        wf(final(store)@),
        r is Ok <==> (uuid_parse(token_text@) matches Some(t) && has_token(old(store)@, t)),
        r is Err ==> r == Err::<(), VerifyError>(VerifyError::InvalidToken) && final(store)@ == old(
            store,
        )@,
        r is Ok ==> (uuid_parse(token_text@) matches Some(t) && final(store)@ == consumed(
            old(store)@,
            token_index(old(store)@, t),
        )),
{
    let t = match parse_uuid(token_text) {
        Some(t) => t,
        None => {
            return Err(VerifyError::InvalidToken);
        },
    };
    let i = match store.find_by_verification_token(t) {
        Some(i) => i,
        None => {
            return Err(VerifyError::InvalidToken);
        },
    };
    proof {
        lemma_token_at(store@, i as int, t);
    }
    store.update_verification(i, true, None);
    Ok(())
}

/// A verification token vanishes from the store the moment it is consumed:
/// afterwards no account holds it, so a second consumption of the same
/// token cannot find it and must be refused.
pub proof fn lemma_token_single_use(s: Seq<UserView>, t: u128)
    requires
        wf(s),
        has_token(s, t),
    ensures
        !has_token(consumed(s, token_index(s, t)), t),
{
    let i = token_index(s, t);
    assert(0 <= i < s.len() && s[i].verification_token == Some(t));
    let s2 = consumed(s, i);
    assert forall|j: int| 0 <= j < s2.len() implies #[trigger] s2[j].verification_token != Some(
        t,
    ) by {
        if j != i {
            assert(s2[j] == s[j]);
        }
    }
}

/// Log in with an address and a password. An unknown address and a wrong
/// password are one indistinguishable refusal; an unverified address is
/// refused distinctly, before the password is even checked; on success a
/// session token for the account id is issued, expiring 24 hours from
/// `now`.
pub fn login(store: &AccountStore, req: &LoginRequest, now: u64, secret: &str) -> (r: Result<
    String,
    LoginError,
>)
    requires
        wf(store@),
        now <= u64::MAX - SESSION_TTL_SECONDS,
    ensures
        ({
            let s = store@;
            let e = req.email@;
            let acc = account_with_email(s, e);
            &&& (r == Err::<String, LoginError>(LoginError::EmailNotVerified) <==> has_email(s, e)
                && !acc.email_verified)
            &&& (r == Err::<String, LoginError>(LoginError::InvalidCredentials) <==> (!has_email(
                s,
                e,
            ) || (has_email(s, e) && acc.email_verified && !bcrypt_verifies(
                req.password@,
                acc.password_hash,
            ))))
            &&& (r matches Ok(tok) ==> ({
                &&& has_email(s, e)
                &&& acc.email_verified
                &&& bcrypt_verifies(req.password@, acc.password_hash)
                &&& tok@ == jwt_of(acc.id, (now + SESSION_TTL_SECONDS) as u64, secret@)
            }))
            &&& ((has_email(s, e) && acc.email_verified && bcrypt_verifies(
                req.password@,
                acc.password_hash,
            )) ==> r is Ok)
        }),
{
    let i = match store.find_by_email(req.email.as_str()) {
        Some(i) => i,
        None => {
            return Err(LoginError::InvalidCredentials);
        },
    };
    proof {
        lemma_email_at(store@, i as int);
    }
    let u = store.get(i);
    if !u.email_verified {
        return Err(LoginError::EmailNotVerified);
    }
    if !verify_password(req.password.as_str(), u.password_hash.as_str()) {
        return Err(LoginError::InvalidCredentials);
    }
    Ok(issue_session(u.id, now, secret))
}

/// The store after the unverified account at `i` had its token rotated.
pub open spec fn rotated(s: Seq<UserView>, i: int, t: u128) -> Seq<UserView> {
    s.update(i, with_verification(s[i], false, Some(t)))
}

/// Resend a verification mail. An unknown address is refused; an already
/// verified account is an idempotent no-op, reported distinctly from a
/// send; otherwise the token is rotated — invalidating the earlier link —
/// and the new token text is handed back for the mail edge. A mail failure
/// after rotation leaves the rotated token valid.
pub fn resend_verification(store: &mut AccountStore, email: &str) -> (r: Result<
    ResendAction,
    ResendError,
>)
    requires
        wf(old(store)@),
    ensures
        wf(final(store)@),
        r == Err::<ResendAction, ResendError>(ResendError::NotFound) <==> !has_email(
            old(store)@,
            email@,
        ),
        r is Err ==> final(store)@ == old(store)@,
        (r matches Ok(ResendAction::AlreadyVerified)) <==> (has_email(old(store)@, email@)
            && account_with_email(old(store)@, email@).email_verified),
        (r matches Ok(ResendAction::AlreadyVerified)) ==> final(store)@ == old(store)@,
        (match r {
            Ok(ResendAction::Send { token, token_text }) => ({
                let s = old(store)@;
                let e = email@;
                &&& has_email(s, e)
                &&& !account_with_email(s, e).email_verified
                &&& !has_token(s, token)
                &&& final(store)@ == rotated(s, email_index(s, e), token)
                &&& uuid_parse(token_text@) == Some(token)
            }),
            _ => true,
        }),
        r == Err::<ResendAction, ResendError>(ResendError::Dependency) ==> has_email(
            old(store)@,
            email@,
        ) && !account_with_email(old(store)@, email@).email_verified,
        (has_email(old(store)@, email@) && !account_with_email(
            old(store)@,
            email@,
        ).email_verified) ==> (match r {
            Ok(ResendAction::Send { .. }) => true,
            Err(ResendError::Dependency) => true,
            _ => false,
        }),
{
    let i = match store.find_by_email(email) {
        Some(i) => i,
        None => {
            return Err(ResendError::NotFound);
        },
    };
    proof {
        lemma_email_at(store@, i as int);
    }
    if store.get(i).email_verified {
        return Ok(ResendAction::AlreadyVerified);
    }
    let token = fresh_uuid();
    if store.find_by_verification_token(token).is_some() {
        return Err(ResendError::Dependency);
    }
    let token_text = uuid_text(token);
    proof {
        assert forall|j: int|
            0 <= j < store@.len() && j != i as int implies !(Some(token) matches Some(t2)
            && #[trigger] store@[j].verification_token == Some(t2)) by {
            assert(!(0 <= j < store@.len() && store@[j].verification_token == Some(token)));
        }
    }
    store.update_verification(i, false, Some(token));
    Ok(ResendAction::Send { token, token_text })
}

/// Some account other than the one at `i` carries this email.
pub open spec fn email_taken_by_other(s: Seq<UserView>, email: Seq<char>, i: int) -> bool {
    exists|j: int| 0 <= j < s.len() && j != i && #[trigger] s[j].email == email
}

/// Update an account's contact fields; a missing request field keeps the
/// stored value. A new address must be syntactically valid and not carried
/// by any other account.
pub fn update_user(store: &mut AccountStore, id: u128, req: &UpdateUserRequest) -> (r: Result<
    (),
    UpdateError,
>)
    requires
        wf(old(store)@),
    ensures
        wf(final(store)@),
        r == Err::<(), UpdateError>(UpdateError::NotFound) <==> !has_id(old(store)@, id),
        r is Err ==> final(store)@ == old(store)@,
        ({
            let s = old(store)@;
            let i = id_index(s, id);
            let ne = match req.email {
                Some(e) => e@,
                None => s[i].email,
            };
            let np = match req.phone_number {
                Some(p) => Some(p@),
                None => s[i].phone_number,
            };
            &&& (r == Err::<(), UpdateError>(UpdateError::InvalidEmail) <==> ({
                &&& has_id(s, id)
                &&& req.email matches Some(e)
                &&& !valid_email(e@)
            }))
            &&& (r == Err::<(), UpdateError>(UpdateError::Duplicate) <==> ({
                &&& has_id(s, id)
                &&& req.email matches Some(e)
                &&& valid_email(e@)
                &&& email_taken_by_other(s, e@, i)
            }))
            &&& (r is Ok ==> final(store)@ == s.update(i, with_contact(s[i], ne, np)))
            &&& (r is Ok <==> has_id(s, id) && (req.email matches Some(e) ==> valid_email(e@)
                && !email_taken_by_other(s, e@, i)))
        }),
{
    let i = match store.find_by_id(id) {
        Some(i) => i,
        None => {
            return Err(UpdateError::NotFound);
        },
    };
    proof {
        lemma_id_at(store@, i as int);
    }
    let new_email: String = match &req.email {
        Some(e) => {
            if !is_valid_email(e.as_str()) {
                return Err(UpdateError::InvalidEmail);
            }
            match store.find_by_email(e.as_str()) {
                Some(j) => {
                    if j != i {
                        return Err(UpdateError::Duplicate);
                    }
                    proof {
                        assert forall|k: int|
                            0 <= k < store@.len() && k != i as int implies #[trigger] store@[k].email
                            != e@ by {}
                    }
                },
                None => {},
            }
            e.clone()
        },
        None => store.get(i).email.clone(),
    };
    let new_phone: Option<String> = match &req.phone_number {
        Some(p) => Some(p.clone()),
        None => match &store.get(i).phone_number {
            Some(p) => Some(p.clone()),
            None => None,
        },
    };
    store.set_contact(i, new_email, new_phone);
    Ok(())
}

/// Delete an account by id; says whether an account was there to delete.
pub fn delete_user(store: &mut AccountStore, id: u128) -> (r: bool)
    requires
        wf(old(store)@),
    ensures
        wf(final(store)@),
        r <==> has_id(old(store)@, id),
        r ==> final(store)@ == old(store)@.remove(id_index(old(store)@, id)),
        !r ==> final(store)@ == old(store)@,
{
    match store.find_by_id(id) {
        Some(i) => {
            proof {
                lemma_id_at(store@, i as int);
            }
            let _removed = store.remove_at(i);
            true
        },
        None => false,
    }
}

/// Read an account's public projection by id.
pub fn get_user(store: &AccountStore, id: u128) -> (r: Option<UserGet>)
    requires
        wf(store@),
    ensures
        r is Some <==> has_id(store@, id),
        r matches Some(g) ==> ({
            let acc = account_with_id(store@, id);
            &&& g.id == acc.id
            &&& g.email@ == acc.email
            &&& g.phone_number.deep_view() == acc.phone_number
            &&& g.email_verified == acc.email_verified
            &&& g.phone_verified == acc.phone_verified
            &&& g.created_at == acc.created_at
        }),
{
    match store.find_by_id(id) {
        Some(i) => {
            proof {
                lemma_id_at(store@, i as int);
            }
            let u = store.get(i);
            let phone = match &u.phone_number {
                Some(p) => Some(p.clone()),
                None => None,
            };
            Some(
                UserGet {
                    id: u.id,
                    email: u.email.clone(),
                    phone_number: phone,
                    email_verified: u.email_verified,
                    phone_verified: u.phone_verified,
                    created_at: u.created_at,
                },
            )
        },
        None => None,
    }
}

} // verus!
