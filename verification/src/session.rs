//! What the desktop client keeps of a session: the mode of the sign-in form,
//! what the form sends, and who is signed in.

use vstd::prelude::*;
use vstd::string::*;
use crate::error::join;

verus! {

/// Whether the sign-in form logs an existing user in or registers a new one.
#[derive(Debug, Clone, Copy, PartialEq, Eq, Structural)]
pub enum AuthMode {
    Login,
    Register,
}

impl AuthMode {
    /// The other mode.
    pub open spec fn flipped(self) -> AuthMode {
        match self {
            AuthMode::Login => AuthMode::Register,
            AuthMode::Register => AuthMode::Login,
        }
    }

    /// The path of the server that the form is sent to.
    pub open spec fn path(self) -> Seq<char> {
        match self {
            AuthMode::Login => "/login"@,
            AuthMode::Register => "/register"@,
        }
    }

    /// The text on the button that sends the form.
    pub open spec fn button_label(self) -> Seq<char> {
        match self {
            AuthMode::Login => "登录"@,
            AuthMode::Register => "注册"@,
        }
    }

    /// The text of the link that switches to the other mode.
    pub open spec fn toggle_label(self) -> Seq<char> {
        match self {
            AuthMode::Login => "还没有账号？去注册"@,
            AuthMode::Register => "已有账号？去登录"@,
        }
    }

    /// The path of the server that the form is sent to.
    pub fn endpoint(&self) -> (r: &'static str)
        ensures
            r@ == self.path(),
    {
        match self {
            AuthMode::Login => "/login",
            AuthMode::Register => "/register",
        }
    }

    /// The text on the button that sends the form.
    pub fn button_text(&self) -> (r: &'static str)
        ensures
            r@ == self.button_label(),
    {
        match self {
            AuthMode::Login => "登录",
            AuthMode::Register => "注册",
        }
    }

    /// Switches between logging in and registering.
    pub fn toggle(&self) -> (r: AuthMode)
        ensures
            r == self.flipped(),
    {
        match self {
            AuthMode::Login => AuthMode::Register,
            AuthMode::Register => AuthMode::Login,
        }
    }

    /// The text of the link that switches to the other mode.
    pub fn toggle_text(&self) -> (r: &'static str)
        ensures
            r@ == self.toggle_label(),
    {
        match self {
            AuthMode::Login => "还没有账号？去注册",
            AuthMode::Register => "已有账号？去登录",
        }
    }
}

/// Switching twice gives the mode one started from.
pub proof fn law_toggle_twice(mode: AuthMode)
    ensures
        mode.flipped().flipped() == mode,
        mode.flipped() != mode,
{
}

/// What the sign-in form sends.
#[derive(Debug)]
pub struct AuthPayload {
    pub username: String,
    pub password: String,
}

/// The text shown for a form that lacks a name or a password.
pub open spec fn missing_credentials() -> Seq<char> {
    "用户名和密码不能为空"@
}

impl AuthPayload {
    /// Makes what the form sends from what was typed, unless the name or
    /// the password is empty.
    pub fn from_form(username: &str, password: &str) -> (r: Result<AuthPayload, String>)
        ensures
            match r {
                Ok(p) => username@.len() > 0 && password@.len() > 0 && p.username@ == username@
                    && p.password@ == password@,
                Err(m) => (username@.len() == 0 || password@.len() == 0) && m@
                    == missing_credentials(),
            },
    {
        if username.is_empty() || password.is_empty() {
            return Err("用户名和密码不能为空".to_owned());
        }
        Ok(AuthPayload { username: username.to_owned(), password: password.to_owned() })
    }
}

/// Who is signed in, as the server names them.
#[derive(Debug)]
pub struct User {
    pub id: String,
    pub username: String,
}

/// The session of the client: signed in with a user and a token, or not.
#[derive(Debug)]
pub struct AppState {
    pub user: Option<User>,
    pub token: Option<String>,
}

impl AppState {
    /// A session in which nobody is signed in.
    pub fn new() -> (r: AppState)
        ensures
            r.user is None,
            r.token is None,
    {
        AppState { user: None, token: None }
    }

    /// Tells whether somebody is signed in: a user and a token are there.
    pub fn is_authenticated(&self) -> (r: bool)
        ensures
            r == (self.user is Some && self.token is Some),
    {
        self.user.is_some() && self.token.is_some()
    }

    /// Signs a user in.
    pub fn set_auth(&mut self, user: User, token: String)
        ensures
            final(self).user == Some(user),
            final(self).token == Some(token),
    {
        self.user = Some(user);
        self.token = Some(token);
    }

    /// Signs the user out.
    pub fn logout(&mut self)
        ensures
            final(self).user is None,
            final(self).token is None,
    {
        self.user = None;
        self.token = None;
    }
}

/// What the server answers when it refuses: the text of the refusal.
#[derive(Debug)]
pub struct ErrorResponse {
    pub error: String,
}

/// Why signing in failed, as the client sees it.
#[derive(Debug)]
pub enum AuthError {
    /// The server was not reached, or its answer was not read.
    Network(String),
    /// The server refused; the text is its own.
    Server(String),
    /// The server's answer made no sense.
    InvalidResponse,
}

impl AuthError {
    /// The text shown for the failure.
    pub open spec fn text(self) -> Seq<char> {
        match self {
            AuthError::Network(m) => "网络错误: "@ + m@,
            AuthError::Server(m) => m@,
            AuthError::InvalidResponse => "服务器响应异常"@,
        }
    }

    /// The failure that a refusal of the server is: with the server's own
    /// text where its answer held one, else with the status it answered.
    pub fn from_refusal(body: Option<ErrorResponse>, status: &str) -> (r: AuthError)
        ensures
            r matches AuthError::Server(m) && m@ == (match body {
                Some(b) => b.error@,
                None => "服务器错误 ("@ + status@ + ")"@,
            }),
    {
        match body {
            Some(b) => AuthError::Server(b.error),
            None => {
                let mut text = join("服务器错误 (", status);
                text.append(")");
                AuthError::Server(text)
            },
        }
    }

    /// The text shown for the failure.
    pub fn message(&self) -> (r: String)
        ensures
            r@ == self.text(),
    {
        match self {
            AuthError::Network(m) => join("网络错误: ", m.as_str()),
            AuthError::Server(m) => m.clone(),
            AuthError::InvalidResponse => "服务器响应异常".to_owned(),
        }
    }
}

/// What the form for a new account sends. The balance travels as text.
#[derive(Debug)]
pub struct CreateAccountRequest {
    pub name: String,
    pub account_type: String,
    pub currency_code: String,
    pub initial_balance: Option<String>,
}

/// The text shown for a form that lacks a name, a type or a currency.
pub open spec fn missing_account_fields() -> Seq<char> {
    "Name, Type and Currency are required"@
}

impl CreateAccountRequest {
    /// Makes what the form sends from what was typed, unless the name, the
    /// type or the currency is empty. An empty balance is no balance.
    pub fn from_fields(name: &str, account_type: &str, currency_code: &str, balance: &str) -> (r:
        Result<CreateAccountRequest, String>)
        ensures
            match r {
                Ok(f) => {
                    &&& name@.len() > 0 && account_type@.len() > 0 && currency_code@.len() > 0
                    &&& f.name@ == name@
                    &&& f.account_type@ == account_type@
                    &&& f.currency_code@ == currency_code@
                    &&& f.initial_balance is Some <==> balance@.len() > 0
                    &&& f.initial_balance matches Some(b) ==> b@ == balance@
                },
                Err(m) => (name@.len() == 0 || account_type@.len() == 0 || currency_code@.len()
                    == 0) && m@ == missing_account_fields(),
            },
    {
        if name.is_empty() || account_type.is_empty() || currency_code.is_empty() {
            return Err("Name, Type and Currency are required".to_owned());
        }
        let initial_balance = if balance.is_empty() {
            None
        } else {
            Some(balance.to_owned())
        };
        Ok(
            CreateAccountRequest {
                name: name.to_owned(),
                account_type: account_type.to_owned(),
                currency_code: currency_code.to_owned(),
                initial_balance,
            },
        )
    }
}

/// The pages of the workspace.
#[derive(Debug, Clone, Copy, PartialEq, Eq, Structural)]
pub enum Tab {
    Accounts,
    Transactions,
    Holdings,
}

impl Tab {
    /// The name of the page.
    pub open spec fn name(self) -> Seq<char> {
        match self {
            Tab::Accounts => "Accounts"@,
            Tab::Transactions => "Transactions"@,
            Tab::Holdings => "Holdings"@,
        }
    }

    /// The name of the page.
    pub fn label(&self) -> (r: &'static str)
        ensures
            r@ == self.name(),
    {
        match self {
            Tab::Accounts => "Accounts",
            Tab::Transactions => "Transactions",
            Tab::Holdings => "Holdings",
        }
    }
}

} // verus!
