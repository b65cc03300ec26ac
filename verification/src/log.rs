//! Log text: the block printed for a received request and the summary
//! printed for the response sent back.

use vstd::prelude::*;
use vstd::string::StringExecFns;
use crate::content::HttpResponse;
use crate::render::byte_len;
use crate::render::dec_of;
use crate::render::usize_to_string;

verus! {

broadcast use vstd::slice::group_slice_axioms;

/// The lines, each indented by two spaces, joined by newlines.
pub open spec fn indent_join(lines: Seq<Seq<char>>) -> Seq<char>
    decreases lines.len(),
{
    if lines.len() == 0 {
        Seq::empty()
    } else if lines.len() == 1 {
        "  "@ + lines[0]
    } else {
        "  "@ + lines[0] + "\n"@ + indent_join(lines.drop_first())
    }
}

/// One more line extends the joined text by a newline and the indented
/// line.
proof fn lemma_indent_join_push(lines: Seq<Seq<char>>, l: Seq<char>)
    requires
        lines.len() > 0,
    ensures
        indent_join(lines.push(l)) == indent_join(lines) + "\n"@ + "  "@ + l,
    decreases lines.len(),
{
    let p = lines.push(l);
    if lines.len() == 1 {
        assert(p.drop_first() =~= seq![l]);
        assert(indent_join(seq![l]) == "  "@ + seq![l][0]);
        assert(seq![l][0] == l);
        assert(indent_join(p) == "  "@ + p[0] + "\n"@ + indent_join(p.drop_first()));
        assert(indent_join(p) =~= indent_join(lines) + "\n"@ + "  "@ + l);
    } else {
        lemma_indent_join_push(lines.drop_first(), l);
        assert(p.drop_first() =~= lines.drop_first().push(l));
        assert(indent_join(p) == "  "@ + p[0] + "\n"@ + indent_join(p.drop_first()));
        assert(indent_join(p) =~= indent_join(lines) + "\n"@ + "  "@ + l);
    }
}

/// The log block for a request: a heading with the timestamp text, then
/// the request's lines, each indented.
pub open spec fn request_log_of(stamp: Seq<char>, lines: Seq<Seq<char>>) -> Seq<char> {
    "Request received at "@ + stamp + "\n"@ + indent_join(lines)
}

/// Renders the log block for a request under the given timestamp text.
pub fn render_request_log(stamp: &str, http_request: &Vec<String>) -> (r: String)
    ensures
        r@ == request_log_of(stamp@, http_request.deep_view()),
{
    let ghost lines = http_request.deep_view();
    let mut r = String::from_str("Request received at ").concat(stamp).concat("\n");
    let mut i: usize = 0;
    proof {
        assert(lines.take(0) =~= Seq::<Seq<char>>::empty());
        assert(r@ =~= request_log_of(stamp@, lines.take(0)));
    }
    while i < http_request.len()
        invariant
            lines == http_request.deep_view(),
            i <= lines.len(),
            r@ == request_log_of(stamp@, lines.take(i as int)),
        decreases lines.len() - i,
    {
        if i > 0 {
            r.append("\n");
        }
        r.append("  ");
        let line = &http_request[i];
        r.append(line.as_str());
        proof {
            assert(lines.take(i as int).push(lines[i as int]) =~= lines.take(i as int + 1));
            if i > 0 {
                lemma_indent_join_push(lines.take(i as int), lines[i as int]);
                assert(r@ =~= request_log_of(stamp@, lines.take(i as int + 1)));
            } else {
                assert(indent_join(lines.take(1)) == "  "@ + lines.take(1)[0]);
                assert(r@ =~= request_log_of(stamp@, lines.take(1)));
            }
        }
        i += 1;
    }
    proof {
        assert(lines.take(lines.len() as int) =~= lines);
    }
    r
}

/// The log summary for a response: its status line, the Content-Length it
/// carries, and its body, each indented.
pub open spec fn response_log_of(status: Seq<char>, content: Seq<char>) -> Seq<char> {
    "Response sent:\n  "@ + status + "\n  Content-Length: "@ + dec_of(byte_len(content)) + "\n  "@
        + content
}

/// Renders the log summary for a response.
pub fn render_response_log(response: &HttpResponse) -> (r: String)
    ensures
        r@ == response_log_of(response.status@, response.content@),
{
    let length = response.content.as_str().as_bytes().len();
    String::from_str("Response sent:\n  ").concat(response.status.as_str()).concat(
        "\n  Content-Length: ",
    ).concat(usize_to_string(length).as_str()).concat("\n  ").concat(response.content.as_str())
}

/// Relies on chrono's `Local::now` and `DateTime::format`: text for the
/// local time of the call, rendered like `March 07, 2024 at 12:34:56.789 UTC+0000`.
#[verifier::external_body]
fn now_label() -> (r: String) {
    chrono::Local::now().format("%B %d, %Y at %H:%M:%S%.f UTC%z").to_string()
}

/// The log block for a request, stamped with the local time of the call:
/// whatever the clock reads, the block is the heading with some stamp text
/// followed by the indented request lines.
pub fn request_log_block(http_request: &Vec<String>) -> (r: String)
    ensures
        exists|stamp: Seq<char>| r@ == request_log_of(stamp, http_request.deep_view()),
{
    let stamp = now_label();
    let r = render_request_log(stamp.as_str(), http_request);
    proof {
        assert(r@ == request_log_of(stamp@, http_request.deep_view()));
    }
    r
}

} // verus!
