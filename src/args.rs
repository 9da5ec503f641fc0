use vstd::prelude::*;
use crate::error::{Error, ErrorView};
use crate::meta::NestedMeta;
use crate::text::str_eq;

verus! {

/// Which entry of an attribute list sets each struct-level option.
#[derive(Clone, Copy, Debug, PartialEq, Eq, Default)]
pub struct ArgSlots {
    pub vis_all: Option<usize>,
    pub setters: Option<usize>,
    pub getters: Option<usize>,
    pub debug: Option<usize>,
}

/// Records entry `k`, of the given name, in `a`.
pub open spec fn arg_step(a: ArgSlots, item: NestedMeta, k: int) -> Result<ArgSlots, ErrorView> {
    match item {
        NestedMeta::Lit(_) => Err(ErrorView::UnsupportedLiteral),
        NestedMeta::Meta(m) => {
            let name = m.path_spec().text@;
            if name == "vis_all"@ {
                if a.vis_all is Some {
                    Err(ErrorView::DuplicateField(name))
                } else {
                    Ok(ArgSlots { vis_all: Some(k as usize), ..a })
                }
            } else if name == "setters"@ {
                if a.setters is Some {
                    Err(ErrorView::DuplicateField(name))
                } else {
                    Ok(ArgSlots { setters: Some(k as usize), ..a })
                }
            } else if name == "getters"@ {
                if a.getters is Some {
                    Err(ErrorView::DuplicateField(name))
                } else {
                    Ok(ArgSlots { getters: Some(k as usize), ..a })
                }
            } else if name == "debug"@ {
                if a.debug is Some {
                    Err(ErrorView::DuplicateField(name))
                } else {
                    Ok(ArgSlots { debug: Some(k as usize), ..a })
                }
            } else {
                Err(ErrorView::UnknownField(name))
            }
        },
    }
}

/// Reads the entries of `items` in order; the first entry that is a
/// literal, has an unknown name or repeats a name is the error.
pub open spec fn arg_slots(items: Seq<NestedMeta>) -> Result<ArgSlots, ErrorView>
    decreases items.len(),
{
    if items.len() == 0 {
        Ok(ArgSlots { vis_all: None, setters: None, getters: None, debug: None })
    } else {
        match arg_slots(items.drop_last()) {
            Err(e) => Err(e),
            Ok(a) => arg_step(a, items.last(), items.len() - 1),
        }
    }
}

/// Once reading stops at an error, the rest of the list does not change it.
proof fn lemma_error_stays(s: Seq<NestedMeta>, n: int)
    requires
        0 <= n <= s.len(),
        arg_slots(s.subrange(0, n)) is Err,
    ensures
        arg_slots(s) == arg_slots(s.subrange(0, n)),
    decreases s.len() - n,
{
    if n < s.len() {
        assert(s.subrange(0, n + 1).drop_last() == s.subrange(0, n));
        lemma_error_stays(s, n + 1);
    } else {
        assert(s.subrange(0, n) == s);
    }
}

fn record(slot: &mut Option<usize>, name: &String, k: usize) -> (r: Result<(), Error>)
    ensures
        (*old(slot)) is Some ==> (r matches Err(e) && e@ == ErrorView::DuplicateField(name@)),
        (*old(slot)) is Some ==> *final(slot) == *old(slot),
        (*old(slot)) is None ==> r is Ok && *final(slot) == Some(k),
{
    match slot {
        Some(_) => Err(Error::DuplicateField(name.clone())),
        None => {
            *slot = Some(k);
            Ok(())
        },
    }
}

/// Sorts the entries of a `viewit(...)` argument list into the options
/// they set.
pub fn arg_slots_of(items: &Vec<NestedMeta>) -> (r: Result<ArgSlots, Error>)
    ensures
        match (r, arg_slots(items@)) {
            (Ok(a), Ok(b)) => a == b,
            (Err(e), Err(f)) => e@ == f,
            _ => false,
        },
{
    let mut a = ArgSlots { vis_all: None, setters: None, getters: None, debug: None };
    let mut k: usize = 0;
    while k < items.len()
        invariant
            k <= items@.len(),
            arg_slots(items@.subrange(0, k as int)) == Ok::<ArgSlots, ErrorView>(a),
        decreases items@.len() - k,
    {
        let ghost pre = items@.subrange(0, k as int);
        assert(items@.subrange(0, k + 1).drop_last() == pre);
        assert(items@.subrange(0, k + 1).last() == items@[k as int]);
        match &items[k] {
            NestedMeta::Lit(_) => {
                proof {
                    lemma_error_stays(items@, k + 1);
                }
                return Err(Error::UnsupportedLiteral);
            },
            NestedMeta::Meta(m) => {
                let name = &m.path().text;
                let res = if str_eq(name.as_str(), "vis_all") {
                    record(&mut a.vis_all, name, k)
                } else if str_eq(name.as_str(), "setters") {
                    record(&mut a.setters, name, k)
                } else if str_eq(name.as_str(), "getters") {
                    record(&mut a.getters, name, k)
                } else if str_eq(name.as_str(), "debug") {
                    record(&mut a.debug, name, k)
                } else {
                    Err(Error::UnknownField(name.clone()))
                };
                match res {
                    Err(e) => {
                        proof {
                            lemma_error_stays(items@, k + 1);
                        }
                        return Err(e);
                    },
                    Ok(()) => {},
                }
            },
        }
        k = k + 1;
    }
    assert(items@.subrange(0, k as int) == items@);
    Ok(a)
}

} // verus!
