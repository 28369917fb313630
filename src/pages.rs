//! The login and registration forms, as HTML text.

use vstd::prelude::*;
use vstd::string::StringExecFns;

verus! {

/// How the pages look: an optional logo (as a data URL), style sheet and
/// site name.
#[derive(Debug, Clone, PartialEq, Eq, Default)]
pub struct AppState {
    pub logo_data_url: Option<String>,
    pub css: Option<String>,
    pub site_name: Option<String>,
}

pub const LOGIN_HEAD: &'static str = "\n        <!DOCTYPE html>\n        <html>\n        <head>\n            <meta charset=\"utf-8\">\n            <title>Login</title>\n            ";

pub const LOGIN_AFTER_STYLE: &'static str = "\n        </head>\n        <body>\n            <div class=\"auth-container\">\n                ";

pub const LOGIN_AFTER_LOGO: &'static str = "\n                <h1>";

pub const LOGIN_AFTER_SITE_NAME: &'static str = "</h1>\n                <form method=\"POST\" action=\"/login\">\n                    <h1>Login</h1>\n                    ";

pub const LOGIN_AFTER_SUCCESS: &'static str = "\n                    ";

pub const LOGIN_TAIL: &'static str = "\n                    <input type=\"text\" name=\"username\" placeholder=\"Username\"><br>\n                    <input type=\"password\" name=\"password\" placeholder=\"Password\"><br>\n                    <button type=\"submit\">Login</button><br>\n                    <a href=\"/register\">Register</a> if you don't have an account.\n                </form>\n            </div>\n        </body>\n        </html>\n        ";

pub const REGISTER_HEAD: &'static str = "\n        <!DOCTYPE html>\n        <html>\n        <head>\n            <meta charset=\"utf-8\">\n            <title>Register</title>\n            ";

pub const REGISTER_AFTER_STYLE: &'static str = "\n        </head>\n        <body>\n            <form method=\"POST\" action=\"/register\">\n                <h1>Register</h1>\n                ";

pub const REGISTER_TAIL: &'static str = "\n                <input type=\"text\" name=\"username\" placeholder=\"Username\"><br>\n                <input type=\"password\" name=\"password\" placeholder=\"Password\"><br>\n                <button type=\"submit\">Register</button><br>\n                <a href=\"/login\">Login</a> if you already have an account.\n            </form>\n        </body>\n        </html>\n        ";

pub const STYLE_OPEN: &'static str = "<style>";

pub const STYLE_CLOSE: &'static str = "</style>";

pub const LOGO_OPEN: &'static str = "<img src=\"";

pub const LOGO_CLOSE: &'static str = "\" alt=\"Logo\" class=\"logo\"/>";

pub const ERROR_OPEN: &'static str = "<div class=\"error\">";

pub const ERROR_CLOSE: &'static str = "</div>";

pub const REGISTERED_NOTICE: &'static str = "<div class=\"success\">Account registered successfully. You may now log in.</div>";

/// `open + x + close` when `x` is present, nothing otherwise.
pub open spec fn wrapped(open: Seq<char>, x: Option<String>, close: Seq<char>) -> Seq<char> {
    match x {
        Some(v) => open + v@ + close,
        None => Seq::empty(),
    }
}

pub open spec fn or_empty(x: Option<String>) -> Seq<char> {
    match x {
        Some(v) => v@,
        None => Seq::empty(),
    }
}

/// The text of the login page.
pub open spec fn login_page(error: Option<String>, success: Option<String>, state: AppState) -> Seq<char> {
    LOGIN_HEAD@ + wrapped(STYLE_OPEN@, state.css, STYLE_CLOSE@) + LOGIN_AFTER_STYLE@
        + wrapped(LOGO_OPEN@, state.logo_data_url, LOGO_CLOSE@) + LOGIN_AFTER_LOGO@ + or_empty(state.site_name)
        + LOGIN_AFTER_SITE_NAME@ + or_empty(success) + LOGIN_AFTER_SUCCESS@
        + wrapped(ERROR_OPEN@, error, ERROR_CLOSE@) + LOGIN_TAIL@
}

/// The text of the registration page.
pub open spec fn register_page(error: Option<String>, state: AppState) -> Seq<char> {
    REGISTER_HEAD@ + wrapped(STYLE_OPEN@, state.css, STYLE_CLOSE@) + REGISTER_AFTER_STYLE@
        + wrapped(ERROR_OPEN@, error, ERROR_CLOSE@) + REGISTER_TAIL@
}

fn append_wrapped(out: &mut String, open: &str, x: &Option<String>, close: &str)
    ensures
        final(out)@ == old(out)@ + wrapped(open@, *x, close@),
{
    match x {
        Some(v) => {
            out.append(open);
            out.append(v.as_str());
            out.append(close);
        },
        None => {},
    }
}

fn append_present(out: &mut String, x: &Option<String>)
    ensures
        final(out)@ == old(out)@ + or_empty(*x),
{
    match x {
        Some(v) => out.append(v.as_str()),
        None => {},
    }
}

/// The login form, with an optional error message and an optional notice
/// (already HTML) above it.
pub fn render_login_form(error: Option<String>, success: Option<String>, state: &AppState) -> (r: String)
    ensures
        r@ == login_page(error, success, *state),
{
    let mut out = String::from_str(LOGIN_HEAD);
    append_wrapped(&mut out, STYLE_OPEN, &state.css, STYLE_CLOSE);
    out.append(LOGIN_AFTER_STYLE);
    append_wrapped(&mut out, LOGO_OPEN, &state.logo_data_url, LOGO_CLOSE);
    out.append(LOGIN_AFTER_LOGO);
    append_present(&mut out, &state.site_name);
    out.append(LOGIN_AFTER_SITE_NAME);
    append_present(&mut out, &success);
    out.append(LOGIN_AFTER_SUCCESS);
    append_wrapped(&mut out, ERROR_OPEN, &error, ERROR_CLOSE);
    out.append(LOGIN_TAIL);
    out
}

/// The registration form, with an optional error message.
pub fn render_register_form(error: Option<String>, state: &AppState) -> (r: String)
    ensures
        r@ == register_page(error, *state),
{
    let mut out = String::from_str(REGISTER_HEAD);
    append_wrapped(&mut out, STYLE_OPEN, &state.css, STYLE_CLOSE);
    out.append(REGISTER_AFTER_STYLE);
    append_wrapped(&mut out, ERROR_OPEN, &error, ERROR_CLOSE);
    out.append(REGISTER_TAIL);
    out
}

/// The notice shown on the login page after a registration: present only
/// when the page was asked for with the `success` query parameter.
pub fn registered_notice(requested: bool) -> (r: Option<String>)
    ensures
        requested ==> (r matches Some(s) && s@ == REGISTERED_NOTICE@),
        !requested ==> r is None,
{
    if requested {
        Some(String::from_str(REGISTERED_NOTICE))
    } else {
        None
    }
}

} // verus!
