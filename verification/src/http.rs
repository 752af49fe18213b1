//! A plain model of the HTTP responses the service hands back: a status code,
//! an optional redirect target, a body, and the flash messages attached to the
//! response on its way out. Saved idempotency outcomes replay values of this
//! type byte for byte.

use vstd::prelude::*;
use vstd::string::StringExecFns;

verus! {

/// The abstract value of an [`HttpResponse`]: every contract about responses
/// is stated over this view.
pub struct HttpResponseView {
    pub status: u16,
    pub location: Option<Seq<char>>,
    pub body: Seq<char>,
    pub flashes: Seq<Seq<char>>,
}

/// An outward-bound response: status code, the `Location` header when the
/// response is a redirect, the body, and the flash messages it carries.
#[derive(PartialEq, Eq, Debug)]
pub struct HttpResponse {
    pub status: u16,
    pub location: Option<String>,
    pub body: String,
    pub flashes: Vec<String>,
}

impl View for HttpResponse {
    type V = HttpResponseView;

    open spec fn view(&self) -> HttpResponseView {
        HttpResponseView {
            status: self.status,
            location: match self.location {
                Some(l) => Some(l@),
                None => None,
            },
            body: self.body@,
            flashes: self.flashes.deep_view(),
        }
    }
}

impl HttpResponse {
    /// An exact copy, so a saved response can be replayed verbatim while the
    /// stored record stays behind.
    pub fn duplicate(&self) -> (r: HttpResponse)
        ensures
            r@ == self@,
    {
        let location: Option<String> = match &self.location {
            Some(l) => Some(l.clone()),
            None => None,
        };
        let mut flashes: Vec<String> = Vec::new();
        let mut i: usize = 0;
        while i < self.flashes.len()
            invariant
                i <= self.flashes.len(),
                flashes@.len() == i,
                forall|k: int| 0 <= k < i ==> flashes@[k]@ == self.flashes@[k]@,
            decreases self.flashes.len() - i,
        {
            flashes.push(self.flashes[i].clone());
            i = i + 1;
        }
        proof {
            assert(flashes.deep_view() =~~= self.flashes.deep_view());
        }
        let r = HttpResponse {
            status: self.status,
            location,
            body: self.body.clone(),
            flashes,
        };
        proof {
            assert(r@ =~~= self@);
        }
        r
    }

    /// Attaches one more flash message to the response.
    pub fn with_flash(self, message: String) -> (r: HttpResponse)
        ensures
            r@.status == self@.status,
            r@.location == self@.location,
            r@.body == self@.body,
            r@.flashes == self@.flashes.push(message@),
    {
        let ghost orig = self@;
        let mut r = self;
        r.flashes.push(message);
        proof {
            assert(r@.flashes =~~= orig.flashes.push(message@));
        }
        r
    }
}

/// A redirect ("see other") response pointing at `location`, as the login and
/// admin flows return it.
pub fn see_other(location: &str) -> (r: HttpResponse)
    ensures
        r@.status == 303,
        r@.location == Some(location@),
        r@.body.len() == 0,
        r@.flashes.len() == 0,
{
    HttpResponse { status: 303, location: Some(location.to_owned()), body: String::new(), flashes: Vec::new() }
}

/// A bad-request response carrying the offending condition as its body.
pub fn e400(message: String) -> (r: HttpResponse)
    ensures
        r@.status == 400,
        r@.location is None,
        r@.body == message@,
        r@.flashes.len() == 0,
{
    HttpResponse { status: 400, location: None, body: message, flashes: Vec::new() }
}

/// An internal-error response carrying the failure description as its body.
pub fn e500(message: String) -> (r: HttpResponse)
    ensures
        r@.status == 500,
        r@.location is None,
        r@.body == message@,
        r@.flashes.len() == 0,
{
    HttpResponse { status: 500, location: None, body: message, flashes: Vec::new() }
}

/// A plain success response with an empty body.
pub fn ok_response() -> (r: HttpResponse)
    ensures
        r@.status == 200,
        r@.location is None,
        r@.body.len() == 0,
        r@.flashes.len() == 0,
{
    HttpResponse { status: 200, location: None, body: String::new(), flashes: Vec::new() }
}

/// The flash messages as the pages render them: one italicised paragraph
/// per message, in arrival order.
pub open spec fn flash_html(flashes: Seq<Seq<char>>) -> Seq<char>
    decreases flashes.len(),
{
    if flashes.len() == 0 {
        Seq::empty()
    } else {
        "<p><i>"@ + flashes[0] + "</i></p>\n"@ + flash_html(flashes.skip(1))
    }
}

/// Renders a response's flash messages into the HTML block the pages embed.
pub fn render_flash_messages(flashes: &Vec<String>) -> (r: String)
    ensures
        r@ == flash_html(flashes.deep_view()),
{
    let ghost all = flashes.deep_view();
    let mut out = String::new();
    proof {
        assert(all.skip(0) =~= all);
        assert(out@ + flash_html(all) =~= flash_html(all));
    }
    let mut i: usize = 0;
    #[verifier::loop_isolation(false)]
    while i < flashes.len()
        invariant
            i <= flashes.len(),
            out@ + flash_html(all.skip(i as int)) == flash_html(all),
        decreases flashes.len() - i,
    {
        proof {
            assert(all.skip(i as int)[0] == all[i as int]);
            assert(all.skip(i as int).skip(1) =~= all.skip(i + 1));
        }
        let ghost before = out@;
        out.append("<p><i>");
        out.append(flashes[i].as_str());
        out.append("</i></p>\n");
        proof {
            let chunk = "<p><i>"@ + all[i as int] + "</i></p>\n"@;
            assert(out@ =~= before + chunk);
            assert(before + (chunk + flash_html(all.skip(i + 1))) =~= (before + chunk)
                + flash_html(all.skip(i + 1)));
        }
        i = i + 1;
    }
    proof {
        assert(flash_html(all.skip(i as int)) =~= Seq::<char>::empty());
        assert(out@ + Seq::<char>::empty() =~= out@);
    }
    out
}

} // verus!
