use vstd::prelude::*;
use crate::passage::push_range;

verus! {

/// The byte `%`; two in a row form the placeholder of a prompt template.
pub const PERCENT: u8 = 37;

/// `template` with every placeholder `%%`, read from left to right without
/// overlaps, replaced by `text`.
pub open spec fn substitute(template: Seq<u8>, text: Seq<u8>) -> Seq<u8>
    decreases template.len(),
{
    if template.len() < 2 {
        template
    } else if template[0] == PERCENT && template[1] == PERCENT {
        text + substitute(template.subrange(2, template.len() as int), text)
    } else {
        seq![template[0]] + substitute(template.subrange(1, template.len() as int), text)
    }
}

/// Replaces every placeholder `%%` of `template` by `text`. Placeholders that
/// `text` brings in are left as they are.
pub fn fill_template(template: &Vec<u8>, text: &Vec<u8>) -> (r: Vec<u8>)
    ensures
        r@ == substitute(template@, text@),
{
    let n = template.len();
    let mut out: Vec<u8> = Vec::new();
    let mut i: usize = 0;
    assert(template@.subrange(0, n as int) =~= template@);
    assert(out@ + template@ =~= template@);
    while i < n
        invariant
            n == template@.len(),
            i <= n,
            out@ + substitute(template@.subrange(i as int, n as int), text@) == substitute(
                template@,
                text@,
            ),
        decreases n - i,
    {
        let ghost rest = template@.subrange(i as int, n as int);
        if i + 1 < n && template[i] == PERCENT && template[i + 1] == PERCENT {
            assert(rest.subrange(2, rest.len() as int) =~= template@.subrange(
                i + 2,
                n as int,
            ));
            let ghost before = out@;
            push_range(&mut out, text, 0, text.len());
            assert(text@.subrange(0, text@.len() as int) =~= text@);
            assert(out@ + substitute(template@.subrange(i + 2, n as int), text@) =~= before
                + substitute(rest, text@));
            i = i + 2;
        } else {
            assert(rest.subrange(1, rest.len() as int) =~= template@.subrange(
                i + 1,
                n as int,
            ));
            let ghost before = out@;
            out.push(template[i]);
            assert(out@ + substitute(template@.subrange(i + 1, n as int), text@) =~= before
                + substitute(rest, text@));
            i = i + 1;
        }
    }
    assert(template@.subrange(n as int, n as int) =~= Seq::<u8>::empty());
    assert(out@ + Seq::<u8>::empty() =~= out@);
    out
}

} // verus!
