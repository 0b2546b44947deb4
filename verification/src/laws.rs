//! Proved properties that relate several operations of the model.

use vstd::prelude::*;

use crate::demographic::Class;
use crate::demographic::DemoView;
use crate::demographic::Race;
use crate::demographic::class_wf;
use crate::demographic::next_gen_step;

verus! {

/// An advance taken from a quintile always lands on one of the five
/// quintiles or on incarceration, never on any other value.
pub proof fn lemma_advance_outcome(pre: DemoView, post: DemoView)
    requires
        next_gen_step(pre, post),
        pre.class_n is Quintile,
    ensures
        (post.class_n matches Class::Quintile(x) && 1 <= x <= 5) || post.class_n
            == Class::Incarcerated,
{
    assert(class_wf(post.class_n));
}

/// A race category, once assigned, is kept by every advance.
pub proof fn lemma_race_kept(pre: DemoView, post: DemoView)
    requires
        next_gen_step(pre, post),
        pre.race != Race::UnsetR,
    ensures
        post.race == pre.race,
{
}

/// Across five advances from a starting state with an empty history, the
/// final class stays unset until the fifth advance, which records the
/// fifth history entry as the final class.
pub proof fn lemma_five_advances(run: Seq<DemoView>)
    requires
        run.len() == 6,
        run[0].history.len() == 0,
        run[0].class_five == Class::UnsetC,
        forall|i: int|
            0 <= i < 5 ==> run[i].class_n != Class::UnsetC && next_gen_step(
                #[trigger] run[i],
                run[i + 1],
            ),
    ensures
        forall|i: int| 0 <= i < 5 ==> #[trigger] run[i].class_five == Class::UnsetC,
        run[5].history.len() == 5,
        run[5].class_five == run[5].history[4],
{
    assert(run[1].history.len() == 1 && run[1].class_five == Class::UnsetC);
    assert(run[2].history.len() == 2 && run[2].class_five == Class::UnsetC);
    assert(run[3].history.len() == 3 && run[3].class_five == Class::UnsetC);
    assert(run[4].history.len() == 4 && run[4].class_five == Class::UnsetC);
    assert(run[5].history.len() == 5 && run[5].class_five == run[5].history[4]);
}

} // verus!
