//! Values identified by their models.

use vstd::prelude::*;

verus! {

/// A value that can be duplicated: the copy has the same model.
pub trait Duplicate: View + Sized {
    /// A second value with the same model.
    fn duplicate(&self) -> (copy: Self)
        ensures
            copy@ == self@,
    ;
}

/// The models of a list, in order.
pub open spec fn models<N: View>(list: Seq<N>) -> Seq<N::V> {
    list.map_values(|n: N| n@)
}

/// The model of an optional value.
pub open spec fn opt_model<N: View>(value: Option<N>) -> Option<N::V> {
    match value {
        Some(n) => Some(n@),
        None => None,
    }
}

impl Duplicate for i32 {
    fn duplicate(&self) -> (copy: i32) {
        *self
    }
}

impl<'a> Duplicate for &'a str {
    fn duplicate(&self) -> (copy: &'a str) {
        *self
    }
}

impl Duplicate for String {
    fn duplicate(&self) -> (copy: String) {
        self.clone()
    }
}

/// Duplicates an optional value.
pub fn dup_opt<T: Duplicate>(value: &Option<T>) -> (copy: Option<T>)
    ensures
        opt_model(copy) == opt_model(*value),
{
    match value {
        Some(v) => Some(v.duplicate()),
        None => None,
    }
}

/// Duplicates a list, item by item.
pub fn dup_list<T: Duplicate>(list: &Vec<T>) -> (copy: Vec<T>)
    ensures
        models(copy@) == models(list@),
{
    let mut out: Vec<T> = Vec::new();
    let mut i: usize = 0;
    while i < list.len()
        invariant
            i <= list@.len(),
            models(out@) =~= models(list@).take(i as int),
        decreases list@.len() - i,
    {
        let ghost before = models(out@);
        let item = list[i].duplicate();
        out.push(item);
        assert(models(out@) =~= before.push(item@));
        i = i + 1;
    }
    assert(models(out@) =~= models(list@));
    out
}

} // verus!
