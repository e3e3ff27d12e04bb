use vstd::prelude::*;

use crate::style::StyleSpec;
use crate::style::style_off;
use crate::style::style_on;
use crate::style::styled;
use crate::tag::Render;
use crate::tag::Separator;

verus! {

/// The full rendering of a message: the styled tag label, the styled
/// separator, and the untouched body, concatenated in that order.
pub open spec fn rendered(tag_style: StyleSpec, tag_label: Seq<char>, body: Seq<char>) -> Seq<char> {
    styled(tag_style, tag_label) + styled(
        Separator::Colon.style_spec(),
        Separator::Colon.label_spec(),
    ) + body
}

/// Advisable tag and message.
///
/// Pairs a tag with an already-materialized message body; [`Advise::render`]
/// turns the pair into the one styled line that callers write out.
#[derive(Debug)]
pub struct Advise<T: Render> {
    pub tag: T,
    pub msg: String,
}

impl<T: Render> Advise<T> {
    /// Constructs a new `Advise`.
    pub fn new(tag: T, msg: String) -> (a: Self)
        ensures
            a.tag == tag,
            a.msg == msg,
    {
        Self { tag, msg }
    }

    /// Renders the whole message as a single styled line, without a trailing
    /// newline: styled label, styled separator, verbatim body.
    pub fn render(&self) -> (r: String)
        ensures
            r@ == rendered(self.tag.style_spec(), self.tag.label_spec(), self.msg@),
    {
        let mut out = self.tag.render();
        let sep = Separator::default().render();
        out.append(sep.as_str());
        out.append(self.msg.as_str());
        out
    }
}

/// Rendering is a pure function of the data: two renderings of the same tag
/// style, tag label and body are byte-identical.
pub proof fn lemma_render_deterministic(
    tag_style: StyleSpec,
    tag_label: Seq<char>,
    body: Seq<char>,
    r1: Seq<char>,
    r2: Seq<char>,
)
    requires
        r1 == rendered(tag_style, tag_label, body),
        r2 == rendered(tag_style, tag_label, body),
    ensures
        r1 == r2,
{
}

/// A rendered message introduces nothing beyond the styling escapes: between
/// them stand exactly the tag's label, the two characters `": "` of the
/// separator, and the body, unmodified.
pub proof fn lemma_rendered_shape(tag_style: StyleSpec, tag_label: Seq<char>, body: Seq<char>)
    ensures
        rendered(tag_style, tag_label, body) == style_on(tag_style) + tag_label + style_off(
            tag_style,
        ) + style_on(Separator::Colon.style_spec()) + ": "@ + style_off(
            Separator::Colon.style_spec(),
        ) + body,
{
    assert(rendered(tag_style, tag_label, body) =~= style_on(tag_style) + tag_label + style_off(
        tag_style,
    ) + style_on(Separator::Colon.style_spec()) + ": "@ + style_off(
        Separator::Colon.style_spec(),
    ) + body);
}

} // verus!
