use vstd::prelude::*;

use crate::app::{
    size_warnings, stored_size, stored_title, title_warnings, App, Warning, MIN_SIDE,
};

verus! {

/// Setting a non-empty title and reading it back gives that title, with no
/// warning raised.
pub proof fn lemma_nonempty_title_kept(t: Seq<char>)
    requires
        t.len() > 0,
    ensures
        stored_title(t) == t,
        title_warnings(t) is None,
{
}

/// Setting a size whose sides both reach the least side and reading it back
/// gives that size, whatever was stored before, with no warning raised.
pub proof fn lemma_valid_size_kept(cur: (u32, u32), req: (u32, u32))
    requires
        req.0 >= MIN_SIDE,
        req.1 >= MIN_SIDE,
    ensures
        stored_size(cur, req) == req,
        size_warnings(req) == Seq::<Warning>::empty(),
{
    assert(size_warnings(req) =~= Seq::empty());
}

/// Retitling a clone does not reach its source: `copy` is a clone of
/// `source` and `retitled` is `copy` after `set_title(t)`. The source keeps
/// its title and the retitled clone holds the new one, so the two differ
/// whenever a non-empty `t` differs from the source's title; the size stays
/// shared.
pub proof fn lemma_retitled_clone_apart<H>(
    source: App<H>,
    copy: App<H>,
    retitled: App<H>,
    t: Seq<char>,
)
    requires
        copy.spec_title() == source.spec_title(),
        copy.spec_size() == source.spec_size(),
        retitled.spec_title() == stored_title(t),
        retitled.spec_size() == copy.spec_size(),
    ensures
        retitled.spec_size() == source.spec_size(),
        t.len() > 0 && t != source.spec_title() ==> retitled.spec_title() != source.spec_title(),
        t.len() > 0 ==> retitled.spec_title() == t,
{
}

} // verus!
