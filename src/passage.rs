use vstd::prelude::*;
use crate::pattern::{first_match, Pattern};
use vstd::utf8::encode_utf8;

verus! {

/// A passage of a file: the whole text of the file, as UTF-8 bytes, and the
/// byte span `[start, end)` of the text that a pattern matched.
pub struct Passage {
    path: String,
    text: Vec<u8>,
    start: usize,
    end: usize,
}

/// What a passage is: its file's path, the file's bytes and the matched span.
pub ghost struct PassageView {
    pub path: Seq<char>,
    pub text: Seq<u8>,
    pub start: int,
    pub end: int,
}

impl PassageView {
    /// The span lies within the text.
    pub open spec fn wf(self) -> bool {
        0 <= self.start <= self.end <= self.text.len()
    }

    /// The matched bytes.
    pub open spec fn matched(self) -> Seq<u8> {
        self.text.subrange(self.start, self.end)
    }

    /// The file's bytes with the matched span replaced by `replacement`.
    pub open spec fn spliced(self, replacement: Seq<u8>) -> Seq<u8> {
        splice(self.text, self.start, self.end, replacement)
    }
}

/// `text[..start] + replacement + text[end..]`.
pub open spec fn splice(text: Seq<u8>, start: int, end: int, replacement: Seq<u8>) -> Seq<u8> {
    text.subrange(0, start) + replacement + text.subrange(end, text.len() as int)
}

/// The passage that `pattern` finds in the file at `path` whose text has the
/// UTF-8 bytes `bytes`: the first match, if there is one.
pub open spec fn passage_in(pattern: Seq<char>, path: Seq<char>, bytes: Seq<u8>) -> Option<
    PassageView,
> {
    match first_match(pattern, bytes) {
        Some((s, e)) => Some(PassageView { path, text: bytes, start: s, end: e }),
        None => None,
    }
}

impl View for Passage {
    type V = PassageView;

    closed spec fn view(&self) -> PassageView {
        PassageView {
            path: self.path@,
            text: self.text@,
            start: self.start as int,
            end: self.end as int,
        }
    }
}

/// Appends `src[from..to]` to `out`.
pub(crate) fn push_range(out: &mut Vec<u8>, src: &Vec<u8>, from: usize, to: usize)
    requires
        from <= to <= src@.len(),
    ensures
        final(out)@ == old(out)@ + src@.subrange(from as int, to as int),
{
    let mut i: usize = from;
    while i < to
        invariant
            from <= i <= to <= src@.len(),
            out@ == old(out)@ + src@.subrange(from as int, i as int),
        decreases to - i,
    {
        out.push(src[i]);
        i = i + 1;
        assert(out@ =~= old(out)@ + src@.subrange(from as int, i as int));
    }
}

impl Passage {
    /// The span lies within the text.
    #[verifier::type_invariant]
    spec fn inv(&self) -> bool {
        self.start <= self.end <= self.text@.len()
    }

    /// Searches the text of the file at `path` for the first match of
    /// `pattern`; `None` where there is none.
    pub fn find(pattern: &Pattern, path: String, text: String) -> (r: Option<Passage>)
        ensures
            match r {
                Some(p) => passage_in(pattern.source(), path@, encode_utf8(text@)) == Some(p@),
                None => passage_in(pattern.source(), path@, encode_utf8(text@)) is None,
            },
            r matches Some(p) ==> p@.wf(),
    {
        let bytes = text.as_str().as_bytes_vec();
        match pattern.find_in(text.as_str()) {
            Some((start, end)) => Some(Passage { path, text: bytes, start, end }),
            None => None,
        }
    }

    /// The path of the file the passage was found in.
    pub fn path(&self) -> (r: &String)
        ensures
            r@ == self@.path,
    {
        &self.path
    }

    /// The byte offset where the match starts.
    pub fn start(&self) -> (r: usize)
        ensures
            r == self@.start,
    {
        self.start
    }

    /// The byte offset just past the match.
    pub fn end(&self) -> (r: usize)
        ensures
            r == self@.end,
    {
        self.end
    }

    /// The file's text with the matched span replaced by `replacement`.
    pub fn replace(&self, replacement: &Vec<u8>) -> (r: Vec<u8>)
        ensures
            r@ == self@.spliced(replacement@),
    {
        proof {
            use_type_invariant(self);
        }
        let mut out: Vec<u8> = Vec::new();
        push_range(&mut out, &self.text, 0, self.start);
        push_range(&mut out, replacement, 0, replacement.len());
        push_range(&mut out, &self.text, self.end, self.text.len());
        assert(replacement@.subrange(0, replacement@.len() as int) =~= replacement@);
        out
    }

    /// The matched bytes.
    pub fn text(&self) -> (r: Vec<u8>)
        ensures
            r@ == self@.matched(),
    {
        proof {
            use_type_invariant(self);
        }
        let mut out: Vec<u8> = Vec::new();
        push_range(&mut out, &self.text, self.start, self.end);
        assert(out@ =~= self@.matched());
        out
    }
}

} // verus!
