//! What the transformations share: the reporting of errors under the name
//! of the macro, and the removal of chosen elements from a vector.
use vstd::prelude::*;
use crate::error::Diagnostic;
use crate::error::DiagnosticView;
use crate::error::Error;

verus! {

/// The message `d` as the macro `macro_name` reports it:
/// `` `macro_name`: message ``, at the same place.
pub open spec fn reported(macro_name: Seq<char>, d: DiagnosticView) -> DiagnosticView {
    DiagnosticView { message: "`"@ + macro_name + "`: "@ + d.message, place: d.place, item: d.item }
}

fn report(macro_name: &str, d: &Diagnostic) -> (r: Diagnostic)
    ensures
        r@ == reported(macro_name@, d@),
{
    let mut message = "`".to_owned();
    message.append(macro_name);
    message.append("`: ");
    message.append(d.message.as_str());
    Diagnostic { message, place: d.place, item: d.item }
}

/// Hands a successful expansion on, and puts the name of the macro in front
/// of each message of a failed one.
pub fn unwrap<T>(macro_name: &str, result: Result<T, Error>) -> (r: Result<T, Error>)
    ensures
        match result {
            Ok(expansion) => r == Ok::<T, Error>(expansion),
            Err(error) => r matches Err(out) && out@ == error@.map_values(
                |d: DiagnosticView| reported(macro_name@, d),
            ),
        },
{
    match result {
        Ok(expansion) => Ok(expansion),
        Err(error) => {
            let first = report(macro_name, &error.first);
            let mut rest: Vec<Diagnostic> = Vec::new();
            let mut i: usize = 0;
            while i < error.rest.len()
                invariant
                    i <= error.rest.len(),
                    rest.len() == i,
                    forall|j: int| 0 <= j < i ==> rest[j]@ == reported(macro_name@, error.rest[j]@),
                decreases error.rest.len() - i,
            {
                rest.push(report(macro_name, &error.rest[i]));
                i += 1;
            }
            let out = Error { first, rest };
            assert(out@ =~= error@.map_values(|d: DiagnosticView| reported(macro_name@, d)));
            Err(out)
        },
    }
}

/// The elements of `items` whose mark is `want`, in their order.
pub open spec fn marked<T>(items: Seq<T>, marks: Seq<bool>, want: bool) -> Seq<T>
    decreases items.len(),
{
    if items.len() == 0 || marks.len() != items.len() {
        Seq::empty()
    } else {
        let before = marked(items.drop_last(), marks.drop_last(), want);
        if marks.last() == want {
            before.push(items.last())
        } else {
            before
        }
    }
}

/// Where an element is marked `want` if and only if `pred` holds of its
/// view, the views of the elements marked `want` are the views that `pred`
/// holds of, in their order.
pub proof fn lemma_marked_views<T: View>(items: Seq<T>, marks: Seq<bool>, want: bool, pred: spec_fn(T::V) -> bool)
    requires
        marks.len() == items.len(),
        forall|i: int| 0 <= i < items.len() ==> (marks[i] == want) == pred((#[trigger] items[i])@),
    ensures
        marked(items, marks, want).map_values(|x: T| x@) == items.map_values(|x: T| x@).filter(pred),
    decreases items.len(),
{
    let view = |x: T| x@;
    reveal(Seq::filter);
    if items.len() > 0 {
        let before = items.drop_last();
        lemma_marked_views(before, marks.drop_last(), want, pred);
        assert(items.map_values(view) =~= before.map_values(view).push(items.last()@));
        before.map_values(view).lemma_filter_push(items.last()@, pred);
        let chosen = marked(before, marks.drop_last(), want);
        if marks.last() == want {
            assert(pred(items[items.len() - 1]@));
            assert(chosen.push(items.last()).map_values(view) =~= chosen.map_values(view).push(items.last()@));
        } else {
            assert(!pred(items[items.len() - 1]@));
        }
    } else {
        assert(marked(items, marks, want).map_values(view) =~= items.map_values(view).filter(pred));
    }
}

/// A collection that can give up the elements that a function chooses.
pub trait DrainFilterExt {
    type Item;

    /// The elements, in their order.
    spec fn elements(&self) -> Seq<Self::Item>;

    /// Calls `f` on each element from the first to the last, removes those
    /// for which it returned `true` and hands them out. Both the elements
    /// that stay and those that leave keep their order.
    fn drain_filter<F: Fn(&Self::Item) -> bool>(&mut self, f: F) -> (r: Vec<Self::Item>)
        requires
            forall|i: int|
                0 <= i < old(self).elements().len() ==> call_requires(f, (&#[trigger] old(self).elements()[i],)),
        ensures
            exists|marks: Seq<bool>|
                {
                    &&& marks.len() == old(self).elements().len()
                    &&& forall|i: int|
                        0 <= i < marks.len() ==> call_ensures(f, (&#[trigger] old(self).elements()[i],), marks[i])
                    &&& final(self).elements() == marked(old(self).elements(), marks, false)
                    &&& r@ == marked(old(self).elements(), marks, true)
                },
    ;
}

impl<T> DrainFilterExt for Vec<T> {
    type Item = T;

    open spec fn elements(&self) -> Seq<T> {
        self@
    }

    fn drain_filter<F: Fn(&T) -> bool>(&mut self, f: F) -> (r: Vec<T>) {
        let ghost all = self@;
        assert(self.elements() == all);
        let mut source: Vec<T> = Vec::new();
        core::mem::swap(self, &mut source);
        let mut ret: Vec<T> = Vec::new();
        let ghost mut marks: Seq<bool> = Seq::empty();
        let n = source.len();
        let mut i: usize = 0;
        assert(all.take(0) =~= Seq::empty());
        while i < n
            invariant
                i <= n,
                n == all.len(),
                source@ == all.skip(i as int),
                marks.len() == i,
                forall|j: int| 0 <= j < n ==> call_requires(f, (&#[trigger] all[j],)),
                forall|j: int| 0 <= j < i ==> call_ensures(f, (&#[trigger] all[j],), marks[j]),
                self@ == marked(all.take(i as int), marks, false),
                ret@ == marked(all.take(i as int), marks, true),
            decreases n - i,
        {
            let item = source.remove(0);
            assert(item == all[i as int]);
            assert(source@ =~= all.skip(i + 1));
            let taken = f(&item);
            proof {
                let ghost old_marks = marks;
                marks = marks.push(taken);
                assert(all.take(i + 1).drop_last() =~= all.take(i as int));
                assert(marks.drop_last() =~= old_marks);
                assert(all.take(i + 1).last() == item);
            }
            if taken {
                ret.push(item);
            } else {
                self.push(item);
            }
            i += 1;
        }
        assert(all.take(n as int) =~= all);
        ret
    }
}

} // verus!
