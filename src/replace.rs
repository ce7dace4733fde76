use vstd::prelude::*;
use vstd::string::StringExecFns;
use vstd::utf8::encode_utf8;
use crate::passage::{passage_in, Passage, PassageView};
use crate::pattern::Pattern;
use crate::prompt::{fill_template, substitute};

verus! {

/// One entry of a walk over a directory tree, in the order of the walk.
///
/// `text` is the file's content; it is only read for entries that
/// `Entry::qualifies` accepts, and is empty for the others.
pub struct Entry {
    pub path: String,
    pub is_dir: bool,
    pub extension: Option<String>,
    pub text: String,
}

/// The extension of the source files that a job rewrites.
pub open spec fn source_extension() -> Seq<char> {
    seq!['r', 's']
}

/// Whether an entry is a file with the source extension.
pub open spec fn qualifies(is_dir: bool, extension: Option<Seq<char>>) -> bool {
    !is_dir && extension == Some(source_extension())
}

/// The view of an entry's extension.
pub open spec fn extension_view(extension: Option<String>) -> Option<Seq<char>> {
    match extension {
        Some(e) => Some(e@),
        None => None,
    }
}

/// The passage that `pattern` finds in the entry, if the entry qualifies.
pub open spec fn entry_passage(entry: Entry, pattern: Seq<char>) -> Option<PassageView> {
    if qualifies(entry.is_dir, extension_view(entry.extension)) {
        passage_in(pattern, entry.path@, encode_utf8(entry.text@))
    } else {
        None
    }
}

/// The passage of the first entry, in walk order, that qualifies and holds a
/// match: the first match within that file, not the earliest across files.
pub open spec fn locate(entries: Seq<Entry>, pattern: Seq<char>) -> Option<PassageView>
    decreases entries.len(),
{
    if entries.len() == 0 {
        None
    } else if entry_passage(entries[0], pattern) is Some {
        entry_passage(entries[0], pattern)
    } else {
        locate(entries.drop_first(), pattern)
    }
}

impl Entry {
    /// Whether an entry with these attributes is a source file to search.
    pub fn qualifies(is_dir: bool, extension: &Option<String>) -> (r: bool)
        ensures
            r == qualifies(is_dir, extension_view(*extension)),
    {
        if is_dir {
            return false;
        }
        match extension {
            Some(e) => {
                let s = e.as_str();
                let ok = s.unicode_len() == 2 && s.get_char(0) == 'r' && s.get_char(1) == 's';
                assert(ok ==> s@ =~= source_extension());
                ok
            },
            None => false,
        }
    }
}

/// A rewriting job: the tree to search, the pattern of the passages, the
/// prompt template, the check command and the commit message.
pub struct Replace {
    check: Vec<String>,
    commit: String,
    path: String,
    prompt: String,
    pattern: Pattern,
}

impl Replace {
    /// A job over the tree at `path`.
    pub fn new(check: Vec<String>, commit: String, path: String, prompt: String, pattern: Pattern) -> (r: Replace)
        ensures
            r.check() == check@,
            r.commit()@ == commit@,
            r.path()@ == path@,
            r.prompt_template()@ == prompt@,
            r.pattern().source() == pattern.source(),
    {
        Replace { check, commit, path, prompt, pattern }
    }

    /// The check command, program first.
    pub closed spec fn check(&self) -> Seq<String> {
        self.check@
    }

    /// The commit message.
    pub closed spec fn commit(&self) -> String {
        self.commit
    }

    /// The root of the tree.
    pub closed spec fn path(&self) -> String {
        self.path
    }

    /// The prompt template, with `%%` as placeholder.
    pub closed spec fn prompt_template(&self) -> String {
        self.prompt
    }

    /// The pattern of the passages.
    pub closed spec fn pattern(&self) -> Pattern {
        self.pattern
    }

    /// The passage that the job works on next: the first match in the first
    /// qualifying entry, in walk order, that has one.
    pub fn find(&self, entries: &Vec<Entry>) -> (r: Option<Passage>)
        ensures
            match r {
                Some(p) => locate(entries@, self.pattern().source()) == Some(p@) && p@.wf(),
                None => locate(entries@, self.pattern().source()) is None,
            },
    {
        let n = entries.len();
        let mut i: usize = 0;
        assert(entries@.subrange(0, n as int) =~= entries@);
        while i < n
            invariant
                n == entries@.len(),
                i <= n,
                locate(entries@.subrange(i as int, n as int), self.pattern.source()) == locate(
                    entries@,
                    self.pattern.source(),
                ),
            decreases n - i,
        {
            let entry = &entries[i];
            let ghost rest = entries@.subrange(i as int, n as int);
            assert(rest[0] == *entry);
            assert(rest.drop_first() =~= entries@.subrange(i + 1, n as int));
            if Entry::qualifies(entry.is_dir, &entry.extension) {
                let path = <String as StringExecFns>::from_str(entry.path.as_str());
                let text = <String as StringExecFns>::from_str(entry.text.as_str());
                let found = Passage::find(&self.pattern, path, text);
                if found.is_some() {
                    return found;
                }
            }
            i = i + 1;
        }
        None
    }

    /// The prompt for `passage`: the template with every placeholder replaced
    /// by the matched text.
    pub fn prompt(&self, passage: &Passage) -> (r: Vec<u8>)
        ensures
            r@ == substitute(encode_utf8(self.prompt_template()@), passage@.matched()),
    {
        let template = self.prompt.as_str().as_bytes_vec();
        let text = passage.text();
        fill_template(&template, &text)
    }

    /// The check command, program first.
    pub fn check_command(&self) -> (r: &Vec<String>)
        ensures
            r@ == self.check(),
    {
        &self.check
    }

    /// The commit message.
    pub fn commit_message(&self) -> (r: &String)
        ensures
            r@ == self.commit()@,
    {
        &self.commit
    }

    /// The root of the tree.
    pub fn root(&self) -> (r: &String)
        ensures
            r@ == self.path()@,
    {
        &self.path
    }
}

} // verus!
