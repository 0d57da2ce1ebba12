use vstd::prelude::*;
use rand::Rng;
use crate::errors::AuthError;
use crate::hashing::{bcrypt_verifies, hash_password, verify_password};
use crate::token::{generate_jwt, jwt_decode_of, TOKEN_LIFETIME_SECONDS};

verus! {

/// A stored account record: the unique email, the bcrypt hash of the
/// password (never the plaintext), and the optional pending reset code.
pub struct AuthUser {
    pub email: String,
    pub password_hash: String,
    pub reset_code: Option<String>,
}

/// The mathematical image of one account record.
pub ghost struct AuthUserModel {
    pub email: Seq<char>,
    pub password_hash: Seq<char>,
    pub reset_code: Option<Seq<char>>,
}

impl View for AuthUser {
    type V = AuthUserModel;

    open spec fn view(&self) -> AuthUserModel {
        AuthUserModel {
            email: self.email@,
            password_hash: self.password_hash@,
            reset_code: match self.reset_code {
                Some(c) => Some(c@),
                None => None,
            },
        }
    }
}

/// Whether some record in `s` carries `email`.
pub open spec fn has_email(s: Seq<AuthUserModel>, email: Seq<char>) -> bool {
    exists|i: int| 0 <= i < s.len() && s[i].email == email
}

/// The index of the record carrying `email`; meaningful when
/// `has_email` holds and the emails are unique.
pub open spec fn email_index(s: Seq<AuthUserModel>, email: Seq<char>) -> int {
    choose|i: int| 0 <= i < s.len() && s[i].email == email
}

/// No two records share an email.
pub open spec fn emails_unique(s: Seq<AuthUserModel>) -> bool {
    forall|i: int, j: int| 0 <= i < j < s.len() ==> s[i].email != s[j].email
}

/// The credential store: account records with application-enforced
/// email uniqueness.
pub struct CredentialStore {
    users: Vec<AuthUser>,
}

impl View for CredentialStore {
    type V = Seq<AuthUserModel>;

    closed spec fn view(&self) -> Seq<AuthUserModel> {
        self.users@.map_values(|u: AuthUser| u@)
    }
}

impl CredentialStore {
    /// Well-formed: no two records share an email.
    pub open spec fn wf(&self) -> bool {
        emails_unique(self@)
    }

    pub fn new() -> (r: CredentialStore)
        ensures
            r.wf(),
            r@ == Seq::<AuthUserModel>::empty(),
    {
        let r = CredentialStore { users: Vec::new() };
        proof {
            assert(r@ =~= Seq::<AuthUserModel>::empty());
        }
        r
    }

    pub fn len(&self) -> (r: usize)
        ensures
            r == self@.len(),
    {
        self.users.len()
    }

    /// The position of the record carrying `email`, if any.
    fn index_of(&self, email: &String) -> (r: Option<usize>)
        requires
            self.wf(),
        ensures
            match r {
                Some(i) => has_email(self@, email@) && i == email_index(self@, email@)
                    && i < self@.len() && self@[i as int].email == email@,
                None => !has_email(self@, email@),
            },
    {
        let n = self.users.len();
        let mut i: usize = 0;
        while i < n
            invariant
                n == self@.len(),
                i <= n,
                self.wf(),
                forall|k: int| 0 <= k < i ==> self@[k].email != email@,
            decreases n - i,
        {
            if self.users[i].email == *email {
                proof {
                    assert(self@[i as int] == self.users@[i as int]@);
                    let j = email_index(self@, email@);
                    assert(has_email(self@, email@));
                    assert(0 <= j < self@.len() && self@[j].email == email@);
                    if j < i as int {
                        assert(false);
                    } else if (i as int) < j {
                        assert(self@[i as int].email != self@[j].email);
                        assert(false);
                    }
                }
                return Some(i);
            }
            i += 1;
        }
        None
    }

    /// Looks a record up by email.
    pub fn find_user(&self, email: &String) -> (r: Option<&AuthUser>)
        requires
            self.wf(),
        ensures
            match r {
                Some(u) => has_email(self@, email@)
                    && u@ == self@[email_index(self@, email@)],
                None => !has_email(self@, email@),
            },
    {
        match self.index_of(email) {
            Some(i) => Some(&self.users[i]),
            None => None,
        }
    }
}

/// The store after a successful sign-up: the old records unchanged, and
/// one new record for `email` appended whose hash verifies against
/// `password` and whose reset code is clear.
pub open spec fn signed_up(
    pre: Seq<AuthUserModel>,
    post: Seq<AuthUserModel>,
    email: Seq<char>,
    password: Seq<char>,
) -> bool {
    &&& post.len() == pre.len() + 1
    &&& post.subrange(0, pre.len() as int) == pre
    &&& post.last().email == email
    &&& post.last().reset_code is None
    &&& bcrypt_verifies(password, post.last().password_hash)
}

/// Registers a new account. An already-registered email is rejected and
/// the store is left untouched; a fresh email gets exactly one new
/// record holding a hash of the password, so it is registered
/// afterwards. `Internal` only when the hashing primitive failed, again
/// with the store untouched.
pub fn sign_up(store: &mut CredentialStore, email: String, password: String) -> (r: Result<
    (),
    AuthError,
>)
    requires
        old(store).wf(),
    ensures
        final(store).wf(),
        has_email(old(store)@, email@) ==> r == Err::<(), AuthError>(AuthError::AlreadyExists)
            && final(store)@ == old(store)@,
        !has_email(old(store)@, email@) ==> match r {
            Ok(_) => signed_up(old(store)@, final(store)@, email@, password@)
                && has_email(final(store)@, email@),
            Err(e) => e == AuthError::Internal && final(store)@ == old(store)@,
        },
{
    if store.index_of(&email).is_some() {
        return Err(AuthError::AlreadyExists);
    }
    let hashed = match hash_password(password.as_str()) {
        Some(h) => h,
        None => {
            return Err(AuthError::Internal);
        },
    };
    let user = AuthUser { email, password_hash: hashed, reset_code: None };
    let ghost pre = store@;
    let ghost um = user@;
    store.users.push(user);
    proof {
        assert(store@ =~= pre.push(um));
        assert(store@.subrange(0, pre.len() as int) =~= pre);
        assert forall|i: int, j: int| 0 <= i < j < store@.len() implies store@[i].email
            != store@[j].email by {
            if j == pre.len() as int {
                assert(!(0 <= i < pre.len() && pre[i].email == um.email));
            }
        }
        assert(has_email(store@, um.email)) by {
            assert(store@[pre.len() as int].email == um.email);
        }
    }
    Ok(())
}

/// A successful sign-up registers the email: any store reached through
/// `signed_up` for `email` carries that email, so by `sign_up`'s own
/// contract a second sign-up for the same email must return
/// `AlreadyExists` and leave the store unchanged.
pub proof fn lemma_sign_up_then_duplicate(
    pre: Seq<AuthUserModel>,
    post: Seq<AuthUserModel>,
    email: Seq<char>,
    password: Seq<char>,
)
    requires
        signed_up(pre, post, email, password),
    ensures
        has_email(post, email),
{
    assert(post[pre.len() as int].email == email);
}

/// Whether `email` is registered in `s` with a hash that `password`
/// verifies against.
pub open spec fn credentials_match(
    s: Seq<AuthUserModel>,
    email: Seq<char>,
    password: Seq<char>,
) -> bool {
    has_email(s, email) && bcrypt_verifies(password, s[email_index(s, email)].password_hash)
}

/// Signing up on a fresh email makes that email and password match at
/// login: in the store `signed_up` describes, the registered hash for
/// `email` verifies against `password`, so by `login`'s contract the
/// pair is owed a token (barring a signing-primitive failure).
pub proof fn lemma_fresh_sign_up_enables_login(
    pre: Seq<AuthUserModel>,
    post: Seq<AuthUserModel>,
    email: Seq<char>,
    password: Seq<char>,
)
    requires
        !has_email(pre, email),
        emails_unique(post),
        signed_up(pre, post, email, password),
    ensures
        credentials_match(post, email, password),
{
    let n = pre.len() as int;
    assert(post[n].email == email);
    assert(has_email(post, email));
    let j = email_index(post, email);
    assert(0 <= j < post.len() && post[j].email == email);
    if j < n {
        assert(post.subrange(0, n)[j] == post[j]);
        assert(pre[j].email == email);
        assert(false);
    } else if n < j {
        assert(post[n].email != post[j].email);
        assert(false);
    }
    assert(bcrypt_verifies(password, post[j].password_hash));
}

/// Authenticates and issues a token bound to `email` that expires one
/// hour past `now`. An unknown email and a wrong password both yield
/// the one `InvalidCredentials` value; `Internal` only when the signing
/// primitive failed on a correct login.
pub fn login(
    store: &CredentialStore,
    email: String,
    password: String,
    secret: &str,
    now: u64,
) -> (r: Result<String, AuthError>)
    requires
        store.wf(),
        now <= u64::MAX - TOKEN_LIFETIME_SECONDS,
    ensures
        match r {
            Ok(token) => credentials_match(store@, email@, password@) && jwt_decode_of(
                token@,
                secret@,
            ) == Some((email@, now + TOKEN_LIFETIME_SECONDS as int)),
            Err(e) => match e {
                AuthError::InvalidCredentials => !credentials_match(store@, email@, password@),
                AuthError::Internal => credentials_match(store@, email@, password@),
                _ => false,
            },
        },
        !credentials_match(store@, email@, password@) ==> r == Err::<String, AuthError>(
            AuthError::InvalidCredentials,
        ),
{
    let user = match store.find_user(&email) {
        Some(u) => u,
        None => {
            return Err(AuthError::InvalidCredentials);
        },
    };
    if !verify_password(password.as_str(), user.password_hash.as_str()) {
        return Err(AuthError::InvalidCredentials);
    }
    generate_jwt(email.as_str(), secret, now)
}

/// One of the 62 alphanumeric ASCII characters.
pub open spec fn is_code_char(c: char) -> bool {
    ('0' <= c && c <= '9') || ('A' <= c && c <= 'Z') || ('a' <= c && c <= 'z')
}

/// A well-formed reset code: exactly six alphanumeric characters.
pub open spec fn valid_reset_code(code: Seq<char>) -> bool {
    code.len() == 6 && (forall|k: int| 0 <= k < code.len() ==> is_code_char(#[trigger] code[k]))
}

/// Relies on rand's Alphanumeric distribution: every sampled byte is
/// one of the characters A-Z, a-z, 0-9, so six samples give a
/// six-character alphanumeric code. Which code comes back is random,
/// so nothing more is assumed of it.
#[verifier::external_body]
fn sample_reset_code() -> (r: String)
    ensures
        valid_reset_code(r@),
{
    rand::thread_rng().sample_iter(&rand::distributions::Alphanumeric).take(6).map(
        char::from,
    ).collect()
}

/// The record `u` with a pending reset code `code`.
pub open spec fn with_reset_code(u: AuthUserModel, code: Seq<char>) -> AuthUserModel {
    AuthUserModel { email: u.email, password_hash: u.password_hash, reset_code: Some(code) }
}

/// Generates and persists a reset code for a registered email. An
/// unregistered email is reported `NotFound` with the store untouched;
/// a registered one always gets a fresh six-character alphanumeric code
/// stored on its record, every other record unchanged, and the code is
/// returned so that the caller can send it.
pub fn forgot_password(store: &mut CredentialStore, email: String) -> (r: Result<
    String,
    AuthError,
>)
    requires
        old(store).wf(),
    ensures
        final(store).wf(),
        !has_email(old(store)@, email@) ==> r == Err::<String, AuthError>(AuthError::NotFound)
            && final(store)@ == old(store)@,
        has_email(old(store)@, email@) ==> (r matches Ok(code) && valid_reset_code(code@)
            && final(store)@ == old(store)@.update(
            email_index(old(store)@, email@),
            with_reset_code(old(store)@[email_index(old(store)@, email@)], code@),
        )),
{
    let idx = match store.index_of(&email) {
        Some(i) => i,
        None => {
            return Err(AuthError::NotFound);
        },
    };
    let code = sample_reset_code();
    let ghost pre = store@;
    store.users[idx].reset_code = Some(code.clone());
    proof {
        assert(store@ =~= pre.update(idx as int, with_reset_code(pre[idx as int], code@)));
        assert forall|i: int, j: int| 0 <= i < j < store@.len() implies store@[i].email
            != store@[j].email by {
            assert(store@[i].email == pre[i].email);
            assert(store@[j].email == pre[j].email);
        }
    }
    Ok(code)
}

/// The outcome surfaced to the caller for the notification attempt that
/// follows a persisted reset code: a transport failure is reported as
/// `NotifyError` even though the code stays persisted.
pub fn report_notification(sent: bool) -> (r: Result<(), AuthError>)
    ensures
        sent ==> r == Ok::<(), AuthError>(()),
        !sent ==> r == Err::<(), AuthError>(AuthError::NotifyError),
{
    if sent {
        Ok(())
    } else {
        Err(AuthError::NotifyError)
    }
}

} // verus!
