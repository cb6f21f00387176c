//! The `Character` value and its builder operations.
//!
//! `new` makes a character from fixed defaults. Each chained mutation
//! consumes the value, changes one field and clears the `can_use` flag;
//! nothing is validated until `build`, which either promotes the value to a
//! usable character or discards it with a fixed, human-readable error.

use vstd::prelude::*;

use crate::text::{chars_contain_smurf, contains_smurf, lower_of, lowercase_chars};

verus! {

/// The closed set of life states; no exposed operation ever changes it.
#[derive(Debug, Clone, Copy, PartialEq, Eq, Structural)]
pub enum LifeState {
    Alive,
    Dead,
    NeverAlive,
    Uncertain,
}

/// A fictional entity under construction. `can_use` is a diagnostic flag: it
/// is true only right after `new` or after a successful `build`, and no
/// operation consults it.
#[derive(Debug)]
pub struct Character {
    pub name: String,
    pub age: u8,
    pub height: u32,
    pub weight: u32,
    pub lifestate: LifeState,
    pub can_use: bool,
}

/// The text of the validation error: a fixed explanation of all three rules.
pub open spec fn error_text() -> Seq<char> {
    "Could not create character. Characters must have:\n1) Height below 200\n2) Weight below 300\n3) A name that is not Smurf (that is a bad word)"@
}

impl Character {
    /// The three validation rules that `build` enforces: bounded height,
    /// bounded weight, and no "smurf" in the lowercased name.
    pub open spec fn satisfies_rules(self) -> bool {
        &&& self.height < 200
        &&& self.weight < 300
        &&& !contains_smurf(lower_of(self.name@))
    }

    /// A fresh character with the default field values, marked usable.
    pub fn new() -> (c: Self)
        ensures
            c.name@ == "Billy"@,
            c.age == 15,
            c.height == 170,
            c.weight == 70,
            c.lifestate == LifeState::Alive,
            c.can_use,
    {
        Self {
            name: "Billy".to_owned(),
            age: 15,
            height: 170,
            weight: 70,
            lifestate: LifeState::Alive,
            can_use: true,
        }
    }

    /// Sets the height, accepts any value, and clears the usable flag; every
    /// other field is kept.
    pub fn height(self, height: u32) -> (r: Self)
        ensures
            r.height == height,
            !r.can_use,
            r.name@ == self.name@,
            r.age == self.age,
            r.weight == self.weight,
            r.lifestate == self.lifestate,
    {
        let mut c = self;
        c.height = height;
        c.can_use = false;
        c
    }

    /// Sets the weight, accepts any value, and clears the usable flag; every
    /// other field is kept.
    pub fn weight(self, weight: u32) -> (r: Self)
        ensures
            r.weight == weight,
            !r.can_use,
            r.name@ == self.name@,
            r.age == self.age,
            r.height == self.height,
            r.lifestate == self.lifestate,
    {
        let mut c = self;
        c.weight = weight;
        c.can_use = false;
        c
    }

    /// Sets the name to an owned copy of the given text, accepts any value,
    /// and clears the usable flag; every other field is kept.
    pub fn name(self, name: &str) -> (r: Self)
        ensures
            r.name@ == name@,
            !r.can_use,
            r.age == self.age,
            r.height == self.height,
            r.weight == self.weight,
            r.lifestate == self.lifestate,
    {
        let mut c = self;
        c.name = name.to_owned();
        c.can_use = false;
        c
    }

    /// Validates the accumulated state. Succeeds exactly when the three rules
    /// hold; the returned character then carries the configured fields and is
    /// marked usable. Otherwise the value is discarded and the fixed
    /// three-rule error text comes back.
    pub fn build(self) -> (r: Result<Character, String>)
        ensures
            r is Ok <==> self.satisfies_rules(),
            self.height >= 200 ==> r is Err,
            self.weight >= 300 ==> r is Err,
            contains_smurf(lower_of(self.name@)) ==> r is Err,
            r is Ok ==> {
                &&& r->Ok_0.name@ == self.name@
                &&& r->Ok_0.age == self.age
                &&& r->Ok_0.height == self.height
                &&& r->Ok_0.weight == self.weight
                &&& r->Ok_0.lifestate == self.lifestate
                &&& r->Ok_0.can_use
            },
            r is Err ==> r->Err_0@ == error_text(),
    {
        let lowered = lowercase_chars(&self.name);
        if self.height < 200 && self.weight < 300 && !chars_contain_smurf(&lowered) {
            let mut c = self;
            c.can_use = true;
            Ok(c)
        } else {
            Err(
                "Could not create character. Characters must have:\n1) Height below 200\n2) Weight below 300\n3) A name that is not Smurf (that is a bad word)".to_owned(),
            )
        }
    }
}

} // verus!
