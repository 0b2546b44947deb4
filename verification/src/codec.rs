//! A byte encoding of a trajectory that round-trips every field.
//!
//! One byte per field — race, starting class, current class, final class —
//! followed by one byte per history entry. A missing trailing field decodes
//! to the unset state, so a short input is not an error; a byte outside the
//! coded range is.

use vstd::prelude::*;

use crate::demographic::Class;
use crate::demographic::Demo;
use crate::demographic::DemoView;
use crate::demographic::Race;
use crate::demographic::class_wf;

verus! {

/// The code of a class: zero for unset, the quintile number for a
/// quintile, six for incarceration.
pub open spec fn class_code(c: Class) -> u8 {
    match c {
        Class::UnsetC => 0,
        Class::Quintile(x) => x as u8,
        Class::Incarcerated => 6,
    }
}

/// The class a code stands for; codes above six carry no class and read as
/// unset here, with validity tracked separately.
pub open spec fn class_of_code(b: u8) -> Class {
    if 1 <= b <= 5 {
        Class::Quintile(b as i8)
    } else if b == 6 {
        Class::Incarcerated
    } else {
        Class::UnsetC
    }
}

/// The code of a race category: zero for unset, then the two populated
/// categories.
pub open spec fn race_code(r: Race) -> u8 {
    match r {
        Race::UnsetR => 0,
        Race::Black => 1,
        Race::White => 2,
    }
}

/// The race category a code stands for.
pub open spec fn race_of_code(b: u8) -> Race {
    if b == 1 {
        Race::Black
    } else if b == 2 {
        Race::White
    } else {
        Race::UnsetR
    }
}

/// The byte at an index, with absent positions reading as zero (the unset
/// code).
pub open spec fn byte_at(bytes: Seq<u8>, i: int) -> u8 {
    if 0 <= i < bytes.len() {
        bytes[i]
    } else {
        0
    }
}

/// Whether every byte present carries a meaning: a race code in the first
/// position, class codes everywhere else.
pub open spec fn valid_encoding(bytes: Seq<u8>) -> bool {
    &&& byte_at(bytes, 0) <= 2
    &&& byte_at(bytes, 1) <= 6
    &&& byte_at(bytes, 2) <= 6
    &&& byte_at(bytes, 3) <= 6
    &&& forall|i: int| 4 <= i < bytes.len() ==> #[trigger] bytes[i] <= 6
}

/// The history read from the bytes past the four field positions.
pub open spec fn decoded_history(bytes: Seq<u8>) -> Seq<Class> {
    if bytes.len() <= 4 {
        Seq::<Class>::empty()
    } else {
        bytes.subrange(4, bytes.len() as int).map_values(|b: u8| class_of_code(b))
    }
}

/// The trajectory a valid encoding stands for.
pub open spec fn decoded_view(bytes: Seq<u8>) -> DemoView {
    DemoView {
        class_zero: class_of_code(byte_at(bytes, 1)),
        class_n: class_of_code(byte_at(bytes, 2)),
        class_five: class_of_code(byte_at(bytes, 3)),
        history: decoded_history(bytes),
        race: race_of_code(byte_at(bytes, 0)),
    }
}

/// The encoding of a trajectory: the four field codes, then one code per
/// history entry.
pub open spec fn encode_view(v: DemoView) -> Seq<u8> {
    seq![
        race_code(v.race),
        class_code(v.class_zero),
        class_code(v.class_n),
        class_code(v.class_five),
    ] + v.history.map_values(|c: Class| class_code(c))
}

/// Writes the code of a class.
pub fn class_to_byte(c: &Class) -> (b: u8)
    requires
        class_wf(*c),
    ensures
        b == class_code(*c),
        b <= 6,
{
    match c {
        Class::UnsetC => 0,
        Class::Quintile(x) => *x as u8,
        Class::Incarcerated => 6,
    }
}

/// Reads a class back from its code; a byte above six carries no class.
pub fn byte_to_class(b: u8) -> (r: Option<Class>)
    ensures
        r is Some <==> b <= 6,
        r matches Some(c) ==> c == class_of_code(b) && class_wf(c),
{
    if b == 0 {
        Some(Class::UnsetC)
    } else if b <= 5 {
        Some(Class::Quintile(b as i8))
    } else if b == 6 {
        Some(Class::Incarcerated)
    } else {
        None
    }
}

/// Writes the code of a race category.
pub fn race_to_byte(r: &Race) -> (b: u8)
    ensures
        b == race_code(*r),
        b <= 2,
{
    match r {
        Race::UnsetR => 0,
        Race::Black => 1,
        Race::White => 2,
    }
}

/// Reads a race category back from its code; a byte above two carries no
/// category.
pub fn byte_to_race(b: u8) -> (r: Option<Race>)
    ensures
        r is Some <==> b <= 2,
        r matches Some(c) ==> c == race_of_code(b),
{
    if b == 0 {
        Some(Race::UnsetR)
    } else if b == 1 {
        Some(Race::Black)
    } else if b == 2 {
        Some(Race::White)
    } else {
        None
    }
}

impl Demo {
    /// Serializes the trajectory into the byte encoding.
    pub fn to_bytes(&self) -> (r: Vec<u8>)
        requires
            self@.wf(),
        ensures
            r@ == encode_view(self@),
            valid_encoding(r@),
    {
        let mut out: Vec<u8> = Vec::new();
        out.push(race_to_byte(&self.race));
        out.push(class_to_byte(&self.class_zero));
        out.push(class_to_byte(&self.class_n));
        out.push(class_to_byte(&self.class_five));

        let mut i: usize = 0;
        while i < self.history.len()
            invariant
                self@.wf(),
                i <= self@.history.len(),
                out@ == seq![
                    race_code(self@.race),
                    class_code(self@.class_zero),
                    class_code(self@.class_n),
                    class_code(self@.class_five),
                ] + self@.history.subrange(0, i as int).map_values(|c: Class| class_code(c)),
            decreases self@.history.len() - i,
        {
            out.push(class_to_byte(&self.history[i]));
            proof {
                assert(out@ =~= seq![
                    race_code(self@.race),
                    class_code(self@.class_zero),
                    class_code(self@.class_n),
                    class_code(self@.class_five),
                ] + self@.history.subrange(0, i as int + 1).map_values(
                    |c: Class| class_code(c),
                ));
            }
            i = i + 1;
        }

        proof {
            assert(self@.history.subrange(0, self@.history.len() as int) =~= self@.history);
            lemma_round_trip(self@);
        }
        out
    }

    /// Deserializes a trajectory from the byte encoding. A short input
    /// leaves the missing trailing fields unset; a byte outside the coded
    /// ranges yields no trajectory.
    pub fn from_bytes(bytes: &Vec<u8>) -> (r: Option<Demo>)
        ensures
            r is Some <==> valid_encoding(bytes@),
            r matches Some(d) ==> d@ == decoded_view(bytes@) && d@.wf(),
    {
        let b0 = if bytes.len() > 0 { bytes[0] } else { 0 };
        let b1 = if bytes.len() > 1 { bytes[1] } else { 0 };
        let b2 = if bytes.len() > 2 { bytes[2] } else { 0 };
        let b3 = if bytes.len() > 3 { bytes[3] } else { 0 };

        let race = match byte_to_race(b0) {
            Some(r) => r,
            None => { return None; },
        };
        let class_zero = match byte_to_class(b1) {
            Some(c) => c,
            None => { return None; },
        };
        let class_n = match byte_to_class(b2) {
            Some(c) => c,
            None => { return None; },
        };
        let class_five = match byte_to_class(b3) {
            Some(c) => c,
            None => { return None; },
        };

        let mut history: Vec<Class> = Vec::new();
        let mut i: usize = 4;
        while i < bytes.len()
            invariant
                4 <= i,
                i <= bytes.len() || i == 4,
                forall|j: int| 4 <= j < i ==> #[trigger] bytes@[j] <= 6,
                history@ == if i <= 4 {
                    Seq::<Class>::empty()
                } else {
                    bytes@.subrange(4, i as int).map_values(|b: u8| class_of_code(b))
                },
            decreases bytes@.len() - i,
        {
            match byte_to_class(bytes[i]) {
                Some(c) => {
                    history.push(c);
                },
                None => { return None; },
            }
            proof {
                assert(history@ =~= bytes@.subrange(4, i as int + 1).map_values(
                    |b: u8| class_of_code(b),
                ));
            }
            i = i + 1;
        }

        let d = Demo { class_zero, class_n, class_five, history, race };
        proof {
            assert(d@.history =~= decoded_history(bytes@));
            assert(forall|j: int|
                0 <= j < d@.history.len() ==> class_wf(#[trigger] d@.history[j]));
        }
        Some(d)
    }
}

/// Serializing a trajectory and deserializing the result yields a
/// trajectory equal to the original in every field, at any lifecycle
/// point.
pub proof fn lemma_round_trip(v: DemoView)
    requires
        v.wf(),
    ensures
        valid_encoding(encode_view(v)),
        decoded_view(encode_view(v)) == v,
{
    let enc = encode_view(v);
    assert(enc.len() == 4 + v.history.len());
    assert forall|i: int| 4 <= i < enc.len() implies #[trigger] enc[i] <= 6 by {
        assert(enc[i] == class_code(v.history[i - 4]));
        assert(class_wf(v.history[i - 4]));
    }
    assert(decoded_history(enc) =~= v.history) by {
        assert forall|j: int| 0 <= j < v.history.len() implies decoded_history(enc)[j]
            == v.history[j] by {
            assert(decoded_history(enc)[j] == class_of_code(class_code(v.history[j])));
            assert(class_wf(v.history[j]));
        }
    }
    assert(decoded_view(enc) == v);
}

} // verus!
