//! The format encoder registry and the built-in text encoders.

use vstd::prelude::*;
use crate::text::str_eq;

verus! {

/// How an encoder turns content into a file body.
#[derive(PartialEq, Eq, Structural, Clone, Copy, Debug)]
pub enum EncoderKind {
    /// The content itself (plain text, markdown).
    Passthrough,
    /// The content inside a minimal HTML page with a title.
    MarkupPage,
}

/// The content inside a minimal HTML page titled `title`, unescaped.
pub open spec fn markup_page(title: Seq<char>, content: Seq<char>) -> Seq<char> {
    "<!DOCTYPE html><html><head><title>"@ + title + "</title></head><body><pre>"@ + content
        + "</pre></body></html>"@
}

/// What encoder `kind` makes of `content`, for a page titled `title`.
pub open spec fn rendered(kind: EncoderKind, title: Seq<char>, content: Seq<char>) -> Seq<char> {
    match kind {
        EncoderKind::Passthrough => content,
        EncoderKind::MarkupPage => markup_page(title, content),
    }
}

/// Runs encoder `kind` on `content`; `title` names the page of a markup encoder.
pub fn render(kind: EncoderKind, title: &str, content: &str) -> (r: String)
    ensures
        r@ == rendered(kind, title@, content@),
{
    match kind {
        EncoderKind::Passthrough => String::from_str(content),
        EncoderKind::MarkupPage => {
            let mut s = String::from_str("<!DOCTYPE html><html><head><title>");
            s.append(title);
            s.append("</title></head><body><pre>");
            s.append(content);
            s.append("</pre></body></html>");
            s
        },
    }
}

/// The encoder that the last registration of `format` in `entries` names.
pub open spec fn lookup_in(entries: Seq<(String, EncoderKind)>, format: Seq<char>) -> Option<
    EncoderKind,
>
    decreases entries.len(),
{
    if entries.len() == 0 {
        None
    } else if entries.last().0@ == format {
        Some(entries.last().1)
    } else {
        lookup_in(entries.drop_last(), format)
    }
}

/// Maps format identifiers to encoders, and lists the formats that are
/// declared supported (which may include formats without an encoder here).
pub struct EncoderRegistry {
    encoders: Vec<(String, EncoderKind)>,
    declared: Vec<String>,
}

impl EncoderRegistry {
    /// The encoder registered for `format`, if any.
    pub closed spec fn encoder_for(&self, format: Seq<char>) -> Option<EncoderKind> {
        lookup_in(self.encoders@, format)
    }

    /// The declared format identifiers, in declaration order.
    pub closed spec fn declared(&self) -> Seq<Seq<char>> {
        self.declared@.map_values(|s: String| s@)
    }

    /// The three text formats are always declared.
    pub open spec fn wf(&self) -> bool {
        &&& self.declared().contains("txt"@)
        &&& self.declared().contains("html"@)
        &&& self.declared().contains("markdown"@)
    }

    /// The built-in registry: `txt` and `markdown` pass content through,
    /// `html` wraps it in a page; `pdf` and `docx` are declared without an
    /// encoder.
    pub fn with_builtins() -> (r: EncoderRegistry)
        ensures
            r.wf(),
            r.encoder_for("txt"@) == Some(EncoderKind::Passthrough),
            r.encoder_for("html"@) == Some(EncoderKind::MarkupPage),
            r.encoder_for("markdown"@) == Some(EncoderKind::Passthrough),
            forall|f: Seq<char>|
                f != "txt"@ && f != "html"@ && f != "markdown"@ ==> r.encoder_for(f) is None,
            r.declared() == seq!["txt"@, "html"@, "markdown"@, "pdf"@, "docx"@],
    {
        let mut encoders: Vec<(String, EncoderKind)> = Vec::new();
        encoders.push((String::from_str("txt"), EncoderKind::Passthrough));
        encoders.push((String::from_str("html"), EncoderKind::MarkupPage));
        encoders.push((String::from_str("markdown"), EncoderKind::Passthrough));
        let mut declared: Vec<String> = Vec::new();
        declared.push(String::from_str("txt"));
        declared.push(String::from_str("html"));
        declared.push(String::from_str("markdown"));
        declared.push(String::from_str("pdf"));
        declared.push(String::from_str("docx"));
        let r = EncoderRegistry { encoders, declared };
        proof {
            reveal_with_fuel(lookup_in, 4);
            reveal_strlit("txt");
            reveal_strlit("html");
            reveal_strlit("markdown");
            assert("txt"@.len() == 3 && "html"@.len() == 4 && "markdown"@.len() == 8);
            let d = seq!["txt"@, "html"@, "markdown"@, "pdf"@, "docx"@];
            assert(r.declared() =~= d);
            assert(d[0] == "txt"@);
            assert(d[1] == "html"@);
            assert(d[2] == "markdown"@);
            assert(r.encoders@.drop_last() =~= seq![r.encoders@[0], r.encoders@[1]]);
            assert(r.encoders@.drop_last().drop_last() =~= seq![r.encoders@[0]]);
            assert(r.encoders@.drop_last().drop_last().drop_last() =~= Seq::<
                (String, EncoderKind),
            >::empty());
        }
        r
    }

    /// The encoder registered for `format`, if any.
    pub fn encoder_for_format(&self, format: &str) -> (r: Option<EncoderKind>)
        ensures
            r == self.encoder_for(format@),
    {
        let mut i: usize = self.encoders.len();
        assert(self.encoders@.subrange(0, i as int) =~= self.encoders@);
        while i > 0
            invariant
                i <= self.encoders@.len(),
                lookup_in(self.encoders@, format@) == lookup_in(
                    self.encoders@.subrange(0, i as int),
                    format@,
                ),
            decreases i,
        {
            let ghost prefix = self.encoders@.subrange(0, i as int);
            assert(prefix.drop_last() =~= self.encoders@.subrange(0, i - 1));
            if str_eq(self.encoders[i - 1].0.as_str(), format) {
                return Some(self.encoders[i - 1].1);
            }
            i = i - 1;
        }
        assert(self.encoders@.subrange(0, 0) =~= Seq::<(String, EncoderKind)>::empty());
        None
    }

    fn is_declared(&self, format: &str) -> (r: bool)
        ensures
            r == self.declared().contains(format@),
    {
        let mut i: usize = 0;
        while i < self.declared.len()
            invariant
                i <= self.declared@.len(),
                self.declared().len() == self.declared@.len(),
                forall|k: int| 0 <= k < i ==> self.declared()[k] != format@,
            decreases self.declared@.len() - i,
        {
            if str_eq(self.declared[i].as_str(), format) {
                assert(self.declared()[i as int] == format@);
                return true;
            }
            i = i + 1;
        }
        false
    }

    /// Registers `kind` as the encoder for `format`, replacing an earlier one,
    /// and declares `format` if it was not declared.
    pub fn register(&mut self, format: String, kind: EncoderKind)
        requires
            old(self).wf(),
        ensures
            final(self).wf(),
            forall|f: Seq<char>|
                #[trigger] final(self).encoder_for(f) == if f == format@ {
                    Some(kind)
                } else {
                    old(self).encoder_for(f)
                },
            old(self).declared().contains(format@) ==> final(self).declared() == old(
                self,
            ).declared(),
            !old(self).declared().contains(format@) ==> final(self).declared() == old(
                self,
            ).declared().push(format@),
    {
        if !self.is_declared(format.as_str()) {
            self.declared.push(format.clone());
            assert(self.declared() =~= old(self).declared().push(format@));
            assert forall|x: Seq<char>| old(self).declared().contains(x) implies self.declared().contains(x) by {
                let k = choose|k: int| 0 <= k < old(self).declared().len() && old(self).declared()[k] == x;
                assert(self.declared()[k] == x);
            }
        }
        self.encoders.push((format, kind));
        assert(self.encoders@.drop_last() =~= old(self).encoders@);
    }

    /// The declared format identifiers, in declaration order.
    pub fn supported_formats(&self) -> (r: Vec<String>)
        requires
            self.wf(),
        ensures
            r@.map_values(|s: String| s@) == self.declared(),
            r@.map_values(|s: String| s@).contains("txt"@),
            r@.map_values(|s: String| s@).contains("html"@),
            r@.map_values(|s: String| s@).contains("markdown"@),
    {
        let r = self.declared.clone();
        assert(r@.map_values(|s: String| s@) =~= self.declared());
        r
    }
}

/// The formats declared by the built-in registry: `txt`, `html`, `markdown`,
/// `pdf` and `docx`.
pub fn list_supported_formats() -> (r: Vec<String>)
    ensures
        r@.map_values(|s: String| s@) == seq!["txt"@, "html"@, "markdown"@, "pdf"@, "docx"@],
{
    EncoderRegistry::with_builtins().supported_formats()
}

} // verus!
