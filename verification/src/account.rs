//! Accounts owned by this server and the validated account-name grammar.
use vstd::prelude::*;

verus! {

use vstd::string::StringExecFns;
use crate::ids::AccountId;

/// True for the characters an account name may hold.
pub open spec fn is_name_char(c: char) -> bool {
    ('a' <= c && c <= 'z') || ('A' <= c && c <= 'Z') || ('0' <= c && c <= '9') || c == '_'
}

/// A valid account name: 1 to 24 word characters.
pub open spec fn is_valid_account_name(s: Seq<char>) -> bool {
    1 <= s.len() <= 24 && forall|i: int| 0 <= i < s.len() ==> is_name_char(s[i])
}

/// Relies on `regex::Regex::is_match`, on the regex built by `Regex::new`
/// from the anchored pattern `^[a-zA-Z0-9_]{1,24}$`: it accepts exactly the
/// strings of 1 to 24 ASCII word characters.
#[verifier::external_body]
fn name_pattern_is_match(raw: &str) -> (r: bool)
    ensures
        r == is_valid_account_name(raw@),
{
    regex::Regex::new("^[a-zA-Z0-9_]{1,24}$").unwrap().is_match(raw)
}

#[derive(Debug, Clone)]
pub enum AccountNameError {
    /// The rejected raw text.
    InvalidName(String),
}

impl AccountNameError {
    /// The displayed text of this error.
    pub open spec fn spec_message(&self) -> Seq<char> {
        match self {
            AccountNameError::InvalidName(n) => "name "@ + n@ + " is invalid"@,
        }
    }

    /// The displayed text of this error.
    pub fn message(&self) -> (r: String)
        ensures
            r@ == self.spec_message(),
    {
        match self {
            AccountNameError::InvalidName(n) => {
                let mut s = String::from_str("name ");
                s.append(n.as_str());
                s.append(" is invalid");
                s
            },
        }
    }
}

/// A validated account name.
#[derive(Debug)]
pub struct AccountName {
    name: String,
}

impl View for AccountName {
    type V = Seq<char>;

    closed spec fn view(&self) -> Seq<char> {
        self.name@
    }
}

impl Clone for AccountName {
    fn clone(&self) -> (r: Self)
        ensures
            r@ == self@,
    {
        proof {
            use_type_invariant(self);
        }
        AccountName { name: self.name.clone() }
    }
}

impl AccountName {
    #[verifier::type_invariant]
    spec fn type_inv(self) -> bool {
        is_valid_account_name(self.name@)
    }

    /// Accept exactly the texts of 1 to 24 word characters.
    pub fn new(raw: &str) -> (r: Result<AccountName, AccountNameError>)
        ensures
            r is Ok <==> is_valid_account_name(raw@),
            r matches Ok(n) ==> n@ == raw@,
            r matches Err(AccountNameError::InvalidName(s)) ==> s@ == raw@,
    {
        if !name_pattern_is_match(raw) {
            return Err(AccountNameError::InvalidName(String::from_str(raw)));
        }
        Ok(AccountName { name: String::from_str(raw) })
    }

    /// The validated text.
    pub fn as_str(&self) -> (r: &str)
        ensures
            r@ == self@,
            is_valid_account_name(r@),
    {
        proof {
            use_type_invariant(self);
        }
        self.name.as_str()
    }
}

/// The mathematical value of an [`Account`].
pub struct AccountModel {
    pub id: AccountId,
    pub name: Seq<char>,
}

/// An account of this server: an identifier and a validated name.
#[derive(Debug)]
pub struct Account {
    id: AccountId,
    name: AccountName,
}

impl View for Account {
    type V = AccountModel;

    closed spec fn view(&self) -> AccountModel {
        AccountModel { id: self.id, name: self.name@ }
    }
}

impl Clone for Account {
    fn clone(&self) -> (r: Self)
        ensures
            r@ == self@,
    {
        Account { id: self.id, name: self.name.clone() }
    }
}

impl Account {
    /// A new account under `name`, with a freshly generated identifier.
    pub fn new(name: AccountName) -> (r: Account)
        ensures
            r@.name == name@,
    {
        let id = AccountId::new();
        Account { id, name }
    }

    /// The account as stored: identifier and name.
    pub fn from_id_name(id: AccountId, name: AccountName) -> (r: Account)
        ensures
            r@.id == id,
            r@.name == name@,
    {
        Account { id, name }
    }

    pub fn id(&self) -> (r: &AccountId)
        ensures
            *r == self@.id,
    {
        &self.id
    }

    pub fn name(&self) -> (r: &AccountName)
        ensures
            r@ == self@.name,
    {
        &self.name
    }
}

/// A request to create an account.
#[derive(Debug)]
pub struct CreateAccountRequest {
    pub name: AccountName,
}

impl CreateAccountRequest {
    pub fn new(name: AccountName) -> (r: CreateAccountRequest)
        ensures
            r.name@ == name@,
    {
        CreateAccountRequest { name }
    }
}

#[derive(Debug, Clone)]
pub enum CreateAccountError {
    /// The name is already taken.
    AlreadyExists,
    /// Any other storage failure, with its message.
    Unknown(String),
}

#[derive(Debug, Clone)]
pub enum FindAccountError {
    /// A stored name failed to re-validate; holds the raw text.
    InvalidName(String),
    /// Any other storage failure, with its message.
    Unknown(String),
}

impl FindAccountError {
    /// The displayed text of this error.
    pub open spec fn spec_message(&self) -> Seq<char> {
        match self {
            FindAccountError::InvalidName(n) => n@ + " is invalid"@,
            FindAccountError::Unknown(m) => m@,
        }
    }

    /// The displayed text of this error.
    pub fn message(&self) -> (r: String)
        ensures
            r@ == self.spec_message(),
    {
        match self {
            FindAccountError::InvalidName(n) => {
                let mut s = n.clone();
                s.append(" is invalid");
                s
            },
            FindAccountError::Unknown(m) => m.clone(),
        }
    }

    /// How a name-validation failure surfaces from a lookup.
    pub fn from_name_error(e: AccountNameError) -> (r: FindAccountError)
        ensures
            match e {
                AccountNameError::InvalidName(n) => r == FindAccountError::InvalidName(n),
            },
    {
        match e {
            AccountNameError::InvalidName(n) => FindAccountError::InvalidName(n),
        }
    }
}

/// How a failed account insert is classified: a closed connection is a
/// storage fault carrying its message; any other insert failure means the
/// unique name collided.
pub fn classify_create_account_failure(connection_closed: bool, message: String) -> (r:
    CreateAccountError)
    ensures
        connection_closed ==> r == CreateAccountError::Unknown(message),
        !connection_closed ==> r == CreateAccountError::AlreadyExists,
{
    if connection_closed {
        CreateAccountError::Unknown(message)
    } else {
        CreateAccountError::AlreadyExists
    }
}

/// An account reconstructed from its stored parts; a stored name that fails
/// to re-validate surfaces as `InvalidName`.
pub fn account_from_parts(id_value: u128, raw_name: &str) -> (r: Result<Account, FindAccountError>)
    ensures
        r is Ok <==> is_valid_account_name(raw_name@),
        r matches Ok(a) ==> a@.id.value == id_value && a@.name == raw_name@,
        r matches Err(e) ==> e matches FindAccountError::InvalidName(n) && n@ == raw_name@,
{
    match AccountName::new(raw_name) {
        Ok(name) => Ok(Account::from_id_name(AccountId::from_value(id_value), name)),
        Err(e) => Err(FindAccountError::from_name_error(e)),
    }
}

} // verus!
