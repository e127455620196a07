//! The redirect routes: one function per legacy URL pattern, each giving the
//! address on the new host.

use crate::ident::{strip_pdf_ext, without_suffix};
use vstd::prelude::*;
use vstd::string::StringExecFns;

verus! {

/// Base address of the new host.
pub const NEW_HOME: &'static str = "https://ar5iv.labs.arxiv.org";

/// A redirect response: the address the client is sent to.
#[derive(Clone, Debug, PartialEq, Eq)]
pub struct Redirect {
    pub target: String,
}

impl View for Redirect {
    type V = Seq<char>;

    open spec fn view(&self) -> Seq<char> {
        self.target@
    }
}

impl Redirect {
    /// A redirect to `target`.
    pub fn to(target: String) -> (r: Redirect)
        ensures
            r@ == target@,
    {
        Redirect { target }
    }

    /// The address the client is sent to.
    pub fn target(&self) -> (t: &str)
        ensures
            t@ == self@,
    {
        self.target.as_str()
    }
}

/// The address on the new host of a page with one parameter:
/// the base, `prefix`, then `id`.
pub open spec fn page_url(prefix: Seq<char>, id: Seq<char>) -> Seq<char> {
    NEW_HOME@ + prefix + id
}

/// The address on the new host of a page with two parameters:
/// the base, `prefix`, `field`, a slash, then `id`.
pub open spec fn field_page_url(prefix: Seq<char>, field: Seq<char>, id: Seq<char>) -> Seq<char> {
    NEW_HOME@ + prefix + field + "/"@ + id
}

fn redirect_page(prefix: &str, id: &str) -> (r: Redirect)
    ensures
        r@ == page_url(prefix@, id@),
{
    let mut target = String::from_str(NEW_HOME);
    target.append(prefix);
    target.append(id);
    Redirect::to(target)
}

fn redirect_field_page(prefix: &str, field: &str, id: &str) -> (r: Redirect)
    ensures
        r@ == field_page_url(prefix@, field@, id@),
{
    let mut target = String::from_str(NEW_HOME);
    target.append(prefix);
    target.append(field);
    target.append("/");
    target.append(id);
    Redirect::to(target)
}

/// `/`: the root of the new host.
pub fn about() -> (r: Redirect)
    ensures
        r@ == NEW_HOME@,
{
    Redirect::to(String::from_str(NEW_HOME))
}

/// `/html/{id}`: the same page on the new host.
pub fn get_html(id: &str) -> (r: Redirect)
    ensures
        r@ == NEW_HOME@ + "/html/"@ + id@,
{
    redirect_page("/html/", id)
}

/// `/html/{field}/{id}`: `/{field}/{id}` on the new host.
pub fn get_field_html(field: &str, id: &str) -> (r: Redirect)
    ensures
        r@ == NEW_HOME@ + "/"@ + field@ + "/"@ + id@,
{
    redirect_field_page("/", field, id)
}

/// `/abs/{field}/{id}`: `/html/{field}/{id}` on the new host.
pub fn abs_field(field: &str, id: &str) -> (r: Redirect)
    ensures
        r@ == NEW_HOME@ + "/html/"@ + field@ + "/"@ + id@,
{
    redirect_field_page("/html/", field, id)
}

/// `/abs/{id}`: `/html/{id}` on the new host.
pub fn abs(id: &str) -> (r: Redirect)
    ensures
        r@ == NEW_HOME@ + "/html/"@ + id@,
{
    redirect_page("/html/", id)
}

/// `/papers/{field}/{id}`: `/html/{field}/{id}` on the new host.
pub fn vanity_style_field(field: &str, id: &str) -> (r: Redirect)
    ensures
        r@ == NEW_HOME@ + "/html/"@ + field@ + "/"@ + id@,
{
    redirect_field_page("/html/", field, id)
}

/// `/papers/{id}`: `/html/{id}` on the new host.
pub fn vanity_style(id: &str) -> (r: Redirect)
    ensures
        r@ == NEW_HOME@ + "/html/"@ + id@,
{
    redirect_page("/html/", id)
}

/// `/pdf/{field}/{id}`: `/html/{field}/{id}` on the new host, where a
/// trailing `.pdf` of `id` is dropped.
pub fn pdf_field(field: &str, id: String) -> (r: Redirect)
    ensures
        r@ == NEW_HOME@ + "/html/"@ + field@ + "/"@ + without_suffix(id@, ".pdf"@),
{
    let id_core = strip_pdf_ext(id.as_str());
    redirect_field_page("/html/", field, id_core.as_str())
}

/// `/pdf/{id}`: `/html/{id}` on the new host, where a trailing `.pdf` of
/// `id` is dropped.
pub fn pdf(id: String) -> (r: Redirect)
    ensures
        r@ == NEW_HOME@ + "/html/"@ + without_suffix(id@, ".pdf"@),
{
    let id_core = strip_pdf_ext(id.as_str());
    redirect_page("/html/", id_core.as_str())
}

/// `/log/{id}`: the same page on the new host.
pub fn get_log(id: &str) -> (r: Redirect)
    ensures
        r@ == NEW_HOME@ + "/log/"@ + id@,
{
    redirect_page("/log/", id)
}

/// `/log/{field}/{id}`: the same page on the new host.
pub fn get_field_log(field: &str, id: &str) -> (r: Redirect)
    ensures
        r@ == NEW_HOME@ + "/log/"@ + field@ + "/"@ + id@,
{
    redirect_field_page("/log/", field, id)
}

/// `/feeling_lucky`: the same page on the new host.
pub fn feeling_lucky() -> (r: Redirect)
    ensures
        r@ == NEW_HOME@ + "/feeling_lucky"@,
{
    let mut target = String::from_str(NEW_HOME);
    target.append("/feeling_lucky");
    Redirect::to(target)
}

} // verus!
