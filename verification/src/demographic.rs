//! The trajectory record and its generational transitions.

use vstd::prelude::*;

use crate::rng::draw_in_range;

verus! {

/// A socioeconomic class: one of five ordered quintiles (one = lowest), the
/// absorbing incarceration state, or the unset state before any assignment.
#[derive(Debug, Clone, Copy, PartialEq, Eq, Structural)]
pub enum Class {
    UnsetC,
    Quintile(i8),
    Incarcerated,
}

/// A race category: one of the two populated categories whose published
/// mobility statistics drive the transition tables, or the unset state
/// before assignment.
#[derive(Debug, Clone, Copy, PartialEq, Eq, Structural)]
pub enum Race {
    UnsetR,
    Black,
    White,
}

/// Whether a class is one the model can hold: a quintile payload stays
/// inside one through five.
pub open spec fn class_wf(c: Class) -> bool {
    match c {
        Class::Quintile(x) => 1 <= x <= 5,
        _ => true,
    }
}

impl Class {
    /// The human-readable rendering of a class, with its ordinal suffix;
    /// the unset state renders as the empty string.
    pub open spec fn spec_label(self) -> Seq<char> {
        match self {
            Class::UnsetC => ""@,
            Class::Quintile(x) => {
                if x == 1 {
                    "1st Quintile"@
                } else if x == 2 {
                    "2nd Quintile"@
                } else if x == 3 {
                    "3rd Quintile"@
                } else if x == 4 {
                    "4th Quintile"@
                } else {
                    "5th Quintile"@
                }
            },
            Class::Incarcerated => "Incarcerated"@,
        }
    }

    /// Renders a class for display. A quintile outside one through five
    /// would mark a broken invariant elsewhere, so it is excluded rather
    /// than rendered.
    pub fn label(&self) -> (s: &'static str)
        requires
            class_wf(*self),
        ensures
            s@ == self.spec_label(),
    {
        match self {
            Class::UnsetC => "",
            Class::Quintile(x) => {
                if *x == 1 {
                    "1st Quintile"
                } else if *x == 2 {
                    "2nd Quintile"
                } else if *x == 3 {
                    "3rd Quintile"
                } else if *x == 4 {
                    "4th Quintile"
                } else {
                    "5th Quintile"
                }
            },
            Class::Incarcerated => "Incarcerated",
        }
    }
}

impl Race {
    /// The human-readable rendering of a race category; the unset state
    /// renders as the empty string.
    pub open spec fn spec_label(self) -> Seq<char> {
        match self {
            Race::UnsetR => ""@,
            Race::Black => "Black"@,
            Race::White => "White"@,
        }
    }

    /// Renders a race category for display.
    pub fn label(&self) -> (s: &'static str)
        ensures
            s@ == self.spec_label(),
    {
        match self {
            Race::UnsetR => "",
            Race::Black => "Black",
            Race::White => "White",
        }
    }
}

/// The trajectory record of one participant: the generation-zero class,
/// the current class, the final class once five transitions are recorded,
/// the chronological record of completed transitions, and the race
/// category that selects the transition table.
#[derive(Debug, Clone)]
pub struct Demo {
    /// The starting class, set once by the first assignment.
    pub class_zero: Class,
    /// The latest generation's class.
    pub class_n: Class,
    /// The terminal class, recorded when the history reaches five entries.
    pub class_five: Class,
    /// One entry per completed transition, in chronological order.
    pub history: Vec<Class>,
    /// The race category; immutable once assigned, and kept by a reset.
    pub race: Race,
}

/// The mathematical model of a trajectory.
pub ghost struct DemoView {
    pub class_zero: Class,
    pub class_n: Class,
    pub class_five: Class,
    pub history: Seq<Class>,
    pub race: Race,
}

impl View for Demo {
    type V = DemoView;

    open spec fn view(&self) -> DemoView {
        DemoView {
            class_zero: self.class_zero,
            class_n: self.class_n,
            class_five: self.class_five,
            history: self.history@,
            race: self.race,
        }
    }
}

impl DemoView {
    /// Every class held anywhere in the trajectory is one the model can
    /// hold.
    pub open spec fn wf(self) -> bool {
        &&& class_wf(self.class_zero)
        &&& class_wf(self.class_n)
        &&& class_wf(self.class_five)
        &&& forall|i: int| 0 <= i < self.history.len() ==> class_wf(#[trigger] self.history[i])
    }

    /// The rendering of a whole trajectory: the race category and the
    /// current class, with a question mark while no class is assigned and
    /// a fixed marker while no race is assigned.
    pub open spec fn spec_label(self) -> Seq<char> {
        if self.race == Race::UnsetR {
            "Empty Demographic"@
        } else if self.class_n == Class::UnsetC {
            self.race.spec_label() + ": ?"@
        } else {
            self.race.spec_label() + ": "@ + self.class_n.spec_label()
        }
    }

    /// The fully unset trajectory: no class assigned, no history, no race.
    pub open spec fn initial() -> DemoView {
        DemoView {
            class_zero: Class::UnsetC,
            class_n: Class::UnsetC,
            class_five: Class::UnsetC,
            history: Seq::<Class>::empty(),
            race: Race::UnsetR,
        }
    }
}

/// The quintile held after release from incarceration: the quintile held
/// before incarceration, lowered by two for `Black` and by one otherwise,
/// clamped into one through five.
pub open spec fn release_quintile(race: Race, p: i8) -> i8 {
    let penalty: int = if race == Race::Black {
        2
    } else {
        1
    };
    if p - penalty < 1 {
        1 as i8
    } else if p - penalty > 5 {
        5 as i8
    } else {
        (p - penalty) as i8
    }
}

/// The final class after an advance whose history came out as `hist`: it
/// becomes the fifth history entry when the advance brings the history to
/// five entries and no final class was recorded yet, and is otherwise
/// unchanged.
pub open spec fn final_class_update(pre: DemoView, hist: Seq<Class>) -> Class {
    if hist.len() == 5 && pre.class_five == Class::UnsetC {
        hist[4]
    } else {
        pre.class_five
    }
}

/// The effect of one advance taken from a quintile, before the final class
/// is considered: the race is kept, or assigned one of the two populated
/// categories if it was unset; the drawn outcome is a quintile or
/// incarceration, never unset; it becomes the current class and is
/// appended to the history; the starting class is kept.
pub open spec fn sample_step(pre: DemoView, post: DemoView) -> bool {
    &&& post.class_zero == pre.class_zero
    &&& (if pre.race == Race::UnsetR {
        post.race == Race::Black || post.race == Race::White
    } else {
        post.race == pre.race
    })
    &&& post.class_n != Class::UnsetC
    &&& class_wf(post.class_n)
    &&& post.history == pre.history.push(post.class_n)
}

/// The effect of one advance taken from incarceration, before the final
/// class is considered: the incarcerated class is appended to the history,
/// and the current class becomes the release quintile computed from the
/// race and the last recorded quintile; race and starting class are kept.
pub open spec fn release_step(pre: DemoView, post: DemoView) -> bool {
    &&& post.class_zero == pre.class_zero
    &&& post.race == pre.race
    &&& post.history == pre.history.push(Class::Incarcerated)
    &&& post.class_n == Class::Quintile(release_quintile(pre.race, pre.history.last()->Quintile_0))
}

/// The effect of one call of `next_gen`, by the current class before the
/// call: unset is a no-op, a quintile samples the transition table, and
/// incarceration applies the release rule; either advance then records the
/// final class per `final_class_update`.
pub open spec fn next_gen_step(pre: DemoView, post: DemoView) -> bool {
    match pre.class_n {
        Class::UnsetC => post == pre,
        Class::Quintile(x) => sample_step(pre, post) && post.class_five == final_class_update(
            pre,
            post.history,
        ),
        Class::Incarcerated => release_step(pre, post) && post.class_five == final_class_update(
            pre,
            post.history,
        ),
    }
}

impl Demo {
    /// Creates the fully unset trajectory.
    #[must_use]
    pub fn new() -> (d: Demo)
        ensures
            d@ == DemoView::initial(),
            d@.wf(),
    {
        Demo {
            class_zero: Class::UnsetC,
            class_n: Class::UnsetC,
            class_five: Class::UnsetC,
            history: Vec::<Class>::new(),
            race: Race::UnsetR,
        }
    }

    /// Applies the release rule: reads the quintile recorded just before
    /// incarceration, lowers it by the race-dependent penalty with the
    /// result clamped into one through five, appends the incarcerated
    /// class to the history, and makes the release quintile current.
    fn leave_incarceration(&mut self)
        requires
            old(self)@.wf(),
            old(self)@.class_n == Class::Incarcerated,
            old(self)@.history.len() >= 1,
            old(self)@.history.last() is Quintile,
        ensures
            final(self)@.wf(),
            release_step(old(self)@, final(self)@),
            final(self)@.class_five == old(self)@.class_five,
    {
        let previous_class = self.history[self.history.len() - 1];

        match previous_class {
            Class::Quintile(x) => {
                let mut x = x;
                if self.race == Race::Black {
                    x = x - 2;
                } else {
                    x = x - 1;
                }

                if x < 1 {
                    x = 1;
                }

                self.history.push(Class::Incarcerated);
                self.class_n = Class::Quintile(x);
            },
            _ => {
                proof {
                    assert(false);
                }
            },
        }
    }

    /// Draws the next class from the weight row selected by the race and
    /// the current quintile, appends it to the history, and makes it
    /// current; a trajectory whose race is still unset is first given one
    /// of the two populated categories at random.
    fn new_class(&mut self)
        requires
            old(self)@.wf(),
            old(self)@.class_n is Quintile,
        ensures
            final(self)@.wf(),
            sample_step(old(self)@, final(self)@),
            final(self)@.class_five == old(self)@.class_five,
    {
        if self.race == Race::UnsetR {
            self.race = assign_race();
        }

        let q = match self.class_n {
            Class::Quintile(x) => x,
            _ => 1,
        };

        let row = crate::tables::weights_row(self.race, q);
        proof {
            crate::tables::lemma_row_sum(self@.race, q as int);
        }
        let idx = crate::rng::sample_weighted(&row);

        let chosen = if idx == 0 {
            Class::Quintile(1)
        } else if idx == 1 {
            Class::Quintile(2)
        } else if idx == 2 {
            Class::Quintile(3)
        } else if idx == 3 {
            Class::Quintile(4)
        } else if idx == 4 {
            Class::Quintile(5)
        } else {
            Class::Incarcerated
        };

        self.history.push(chosen);
        self.class_n = chosen;

        proof {
            assert forall|i: int| 0 <= i < self@.history.len() implies class_wf(
                #[trigger] self@.history[i],
            ) by {
                if i < old(self)@.history.len() {
                    assert(self@.history[i] == old(self)@.history[i]);
                }
            }
        }
    }

    /// Advances the trajectory by one generation and returns the new
    /// current class: a quintile samples the race-conditioned weight row,
    /// incarceration applies the deterministic release rule, and an unset
    /// current class leaves the trajectory untouched. When the advance
    /// brings the history to five entries, the fifth entry is recorded as
    /// the final class.
    pub fn next_gen(&mut self) -> (c: Class)
        requires
            old(self)@.wf(),
            old(self)@.class_n == Class::Incarcerated ==> old(self)@.history.len() >= 1
                && old(self)@.history.last() is Quintile,
        ensures
            final(self)@.wf(),
            next_gen_step(old(self)@, final(self)@),
            c == final(self)@.class_n,
    {
        match self.class_n {
            Class::UnsetC => {
                return self.class_n;
            },
            Class::Quintile(_) => {
                self.new_class();
            },
            Class::Incarcerated => {
                self.leave_incarceration();
            },
        }

        if self.history.len() == 5 {
            match self.class_five {
                Class::UnsetC => {
                    self.class_five = self.history[4];
                },
                _ => {},
            }
        }

        self.class_n
    }

    /// Clears the starting, current and final classes and empties the
    /// history; the race category is deliberately kept.
    pub fn reset(&mut self)
        ensures
            final(self)@.class_zero == Class::UnsetC,
            final(self)@.class_n == Class::UnsetC,
            final(self)@.class_five == Class::UnsetC,
            final(self)@.history == Seq::<Class>::empty(),
            final(self)@.race == old(self)@.race,
            final(self)@.wf(),
    {
        self.class_zero = Class::UnsetC;
        self.class_n = Class::UnsetC;
        self.class_five = Class::UnsetC;
        self.history.clear();
    }

    /// Renders the trajectory as its race category and current class.
    pub fn label(&self) -> (s: String)
        requires
            self@.wf(),
        ensures
            s@ == self@.spec_label(),
    {
        match self.race {
            Race::UnsetR => String::from_str("Empty Demographic"),
            _ => {
                let mut s = String::from_str(self.race.label());
                match self.class_n {
                    Class::UnsetC => {
                        s.append(": ?");
                    },
                    _ => {
                        s.append(": ");
                        s.append(self.class_n.label());
                    },
                }
                s
            },
        }
    }

    /// Borrows every field at once, for display or serialization by the
    /// caller.
    pub fn destucture(&self) -> (t: (&Class, &Class, &Class, &Vec<Class>, &Race))
        ensures
            *t.0 == self.class_zero,
            *t.1 == self.class_n,
            *t.2 == self.class_five,
            t.3@ == self.history@,
            *t.4 == self.race,
    {
        let Demo { class_zero, class_n, class_five, history, race } = self;
        (class_zero, class_n, class_five, history, race)
    }
}

impl Default for Demo {
    /// The default trajectory is the fully unset one.
    fn default() -> (d: Demo)
        ensures
            d@ == DemoView::initial(),
            d@.wf(),
    {
        Demo::new()
    }
}

/// Draws a race category uniformly between the two populated categories.
pub fn assign_race() -> (r: Race)
    ensures
        r == Race::Black || r == Race::White,
{
    let x = draw_in_range(0, 1);
    if x == 0 {
        Race::Black
    } else {
        Race::White
    }
}

/// Draws a starting class uniformly among the five quintiles; the result is
/// never the incarcerated or unset state.
pub fn assign_starting_class() -> (c: Class)
    ensures
        c matches Class::Quintile(x) && 1 <= x <= 5,
{
    let x = draw_in_range(1, 5);
    Class::Quintile(x as i8)
}

} // verus!
