//! The pages, read from their templates; a template that cannot be read
//! gives a one-line error page in its place. The files are read by the
//! caller, which hands in their text.
use vstd::prelude::*;
use vstd::string::*;

verus! {

/// The text of a page: its template, or the fallback when the template
/// could not be read.
pub open spec fn page_text(template: Option<String>, fallback: Seq<char>) -> Seq<char> {
    match template {
        Some(t) => t@,
        None => fallback,
    }
}

fn page_or(template: Option<String>, fallback: &str) -> (r: String)
    ensures
        r@ == page_text(template, fallback@),
{
    match template {
        Some(t) => t,
        None => String::from_str(fallback),
    }
}

/// The login page.
pub fn login_page(template: Option<String>) -> (r: String)
    ensures
        r@ == page_text(template, "<h1>Error loading login template</h1>"@),
{
    page_or(template, "<h1>Error loading login template</h1>")
}

/// The registration page.
pub fn cadastro_page(template: Option<String>) -> (r: String)
    ensures
        r@ == page_text(template, "<h1>Error loading cadastro template</h1>"@),
{
    page_or(template, "<h1>Error loading cadastro template</h1>")
}

/// The chat page.
pub fn chat_page(template: Option<String>) -> (r: String)
    ensures
        r@ == page_text(template, "<h1>Error loading chat template</h1>"@),
{
    page_or(template, "<h1>Error loading chat template</h1>")
}

/// The admin page.
pub fn admin_page(template: Option<String>) -> (r: String)
    ensures
        r@ == page_text(template, "<h1>Error loading admin template</h1>"@),
{
    page_or(template, "<h1>Error loading admin template</h1>")
}

/// The page for an unknown path.
pub fn not_found_page(template: Option<String>) -> (r: String)
    ensures
        r@ == page_text(template, "<h1>Error loading 404 template</h1>"@),
{
    page_or(template, "<h1>Error loading 404 template</h1>")
}

} // verus!
