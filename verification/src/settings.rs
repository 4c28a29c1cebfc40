//! The settings of the front end: cups, ingredients, what each pump holds
//! and the drinks that can be mixed, and when they fit together.
//!
//! Cups, ingredients and drinks are told apart by identifiers, which are
//! 128-bit numbers.

use crate::pump_service::{valid_line, PumpService};
use vstd::prelude::*;

verus! {

/// The best rating that a drink can have.
pub const STAR_RATING_MAX: u8 = 5;

#[derive(Clone, Debug)]
pub struct Cup {
    pub id: u128,
    pub image_url: String,
    pub name: String,
    pub volume_ml: u16,
}

#[derive(Clone, Debug)]
pub struct Ingredient {
    pub id: u128,
    pub name: String,
    pub modifier: u16,
}

#[derive(Clone, Copy, Debug, PartialEq, Eq, Structural)]
pub struct IngredientMeasurement {
    pub ingredient_id: u128,
    pub parts: u16,
}

#[derive(Clone, Copy, Debug, PartialEq, Eq, Structural)]
pub struct Pump {
    pub pump_number: u8,
    pub ingredient_id: Option<u128>,
}

#[derive(Clone, Debug)]
pub struct Drink {
    pub id: u128,
    pub image_url: String,
    pub name: String,
    pub description: String,
    pub ingredient_measurements: Vec<IngredientMeasurement>,
    pub default_cup_id: Option<u128>,
    pub star_rating: u8,
}

#[derive(Clone, Debug)]
pub struct Settings {
    pub cups: Vec<Cup>,
    pub ingredients: Vec<Ingredient>,
    pub pumps: Vec<Pump>,
    pub drinks: Vec<Drink>,
}

impl Drink {
    /// A drink is rated with at most five stars.
    pub open spec fn valid(&self) -> bool {
        self.star_rating <= STAR_RATING_MAX
    }

    /// Whether the drink's rating is in range.
    pub fn is_valid(&self) -> (valid: bool)
        ensures
            valid == self.valid(),
    {
        self.star_rating <= STAR_RATING_MAX
    }
}

impl Pump {
    /// Whether the pump is one of `number_of_pumps` pumps.
    pub fn is_valid(&self, number_of_pumps: u8) -> (valid: bool)
        ensures
            valid == valid_line(self.pump_number, number_of_pumps),
    {
        PumpService::pump_number_is_valid(self.pump_number, number_of_pumps)
    }
}

/// Whether `id` is among `ids`.
fn contains_id(ids: &Vec<u128>, id: u128) -> (found: bool)
    ensures
        found == ids@.contains(id),
{
    let mut i: usize = 0;
    while i < ids.len()
        invariant
            i <= ids@.len(),
            forall|k: int| 0 <= k < i ==> ids@[k] != id,
        decreases ids@.len() - i,
    {
        if ids[i] == id {
            return true;
        }
        i = i + 1;
    }
    false
}

/// Whether `pump_number` is among `pump_numbers`.
fn contains_number(pump_numbers: &Vec<u8>, pump_number: u8) -> (found: bool)
    ensures
        found == pump_numbers@.contains(pump_number),
{
    let mut i: usize = 0;
    while i < pump_numbers.len()
        invariant
            i <= pump_numbers@.len(),
            forall|k: int| 0 <= k < i ==> pump_numbers@[k] != pump_number,
        decreases pump_numbers@.len() - i,
    {
        if pump_numbers[i] == pump_number {
            return true;
        }
        i = i + 1;
    }
    false
}

impl Settings {
    /// The identifiers of the cups, of the ingredients and of the drinks, in
    /// that order.
    pub open spec fn ids(&self) -> Seq<u128> {
        Seq::new(self.cups@.len(), |i: int| self.cups@[i].id) + Seq::new(
            self.ingredients@.len(),
            |i: int| self.ingredients@[i].id,
        ) + Seq::new(self.drinks@.len(), |i: int| self.drinks@[i].id)
    }

    /// How many of the identifiers belong to cups and ingredients.
    pub open spec fn stock(&self) -> int {
        (self.cups@.len() + self.ingredients@.len()) as int
    }

    /// When settings fit together, for a machine with `number_of_pumps`
    /// pumps:
    /// no identifier is used twice among cups, ingredients and drinks; every
    /// pump is one of the machine's, no two have the same number, and what a
    /// pump holds is a cup or an ingredient; every drink is rated with at
    /// most five stars and is mixed from cups, ingredients, drinks listed
    /// before it, or itself.
    pub open spec fn valid(&self, number_of_pumps: u8) -> bool {
        &&& self.ids().no_duplicates()
        &&& forall|i: int|
            0 <= i < self.pumps@.len() ==> valid_line(
                (#[trigger] self.pumps@[i]).pump_number,
                number_of_pumps,
            )
        &&& forall|i: int, j: int|
            0 <= i < j < self.pumps@.len() ==> (#[trigger] self.pumps@[i]).pump_number != (
            #[trigger] self.pumps@[j]).pump_number
        &&& forall|i: int|
            0 <= i < self.pumps@.len() ==> ((#[trigger] self.pumps@[i]).ingredient_id matches Some(
                id,
            ) ==> self.ids().take(self.stock()).contains(id))
        &&& forall|i: int| 0 <= i < self.drinks@.len() ==> (#[trigger] self.drinks@[i]).valid()
        &&& forall|i: int, k: int|
            0 <= i < self.drinks@.len() && 0 <= k < self.drinks@[i].ingredient_measurements@.len()
                ==> self.ids().take(self.stock() + i + 1).contains(
                (#[trigger] self.drinks@[i].ingredient_measurements@[k]).ingredient_id,
            )
    }

    /// Settings without anything in them.
    pub fn new() -> (settings: Settings)
        ensures
            settings.cups@.len() == 0,
            settings.ingredients@.len() == 0,
            settings.pumps@.len() == 0,
            settings.drinks@.len() == 0,
    {
        Settings { cups: Vec::new(), ingredients: Vec::new(), pumps: Vec::new(), drinks: Vec::new() }
    }

    /// Whether the settings fit together, for a machine with
    /// `number_of_pumps` pumps.
    pub fn is_valid(&self, number_of_pumps: u8) -> (valid: bool)
        ensures
            valid == self.valid(number_of_pumps),
    {
        let ghost ids = self.ids();
        let mut all_ids: Vec<u128> = Vec::new();
        let mut pump_numbers: Vec<u8> = Vec::new();
        let mut c: usize = 0;
        while c < self.cups.len()
            invariant
                ids == self.ids(),
                c <= self.cups@.len(),
                all_ids@ == ids.take(c as int),
                all_ids@.no_duplicates(),
            decreases self.cups@.len() - c,
        {
            let id: u128 = self.cups[c].id;
            if contains_id(&all_ids, id) {
                proof {
                    // An earlier cup has this identifier.
                    let k = choose|k: int| 0 <= k < all_ids@.len() && all_ids@[k] == id;
                    assert(ids[k] == ids[c as int]);
                }
                return false;
            }
            all_ids.push(id);
            c = c + 1;
        }
        let mut g: usize = 0;
        while g < self.ingredients.len()
            invariant
                ids == self.ids(),
                g <= self.ingredients@.len(),
                all_ids@ == ids.take(self.cups@.len() + g),
                all_ids@.no_duplicates(),
            decreases self.ingredients@.len() - g,
        {
            let id: u128 = self.ingredients[g].id;
            if contains_id(&all_ids, id) {
                proof {
                    // A cup or an earlier ingredient has this identifier.
                    let k = choose|k: int| 0 <= k < all_ids@.len() && all_ids@[k] == id;
                    assert(ids[k] == ids[self.cups@.len() + g]);
                }
                return false;
            }
            all_ids.push(id);
            g = g + 1;
        }
        let mut p: usize = 0;
        while p < self.pumps.len()
            invariant
                ids == self.ids(),
                p <= self.pumps@.len(),
                all_ids@ == ids.take(self.stock()),
                all_ids@.no_duplicates(),
                pump_numbers@.len() == p,
                forall|i: int| 0 <= i < p ==> pump_numbers@[i] == self.pumps@[i].pump_number,
                forall|i: int|
                    0 <= i < p ==> valid_line(
                        (#[trigger] self.pumps@[i]).pump_number,
                        number_of_pumps,
                    ),
                forall|i: int, j: int|
                    0 <= i < j < p ==> (#[trigger] self.pumps@[i]).pump_number != (
                    #[trigger] self.pumps@[j]).pump_number,
                forall|i: int|
                    0 <= i < p ==> ((#[trigger] self.pumps@[i]).ingredient_id matches Some(id)
                        ==> ids.take(self.stock()).contains(id)),
            decreases self.pumps@.len() - p,
        {
            let pump: Pump = self.pumps[p];
            if !pump.is_valid(number_of_pumps) {
                return false;
            }
            if contains_number(&pump_numbers, pump.pump_number) {
                return false;
            }
            assert forall|i: int| 0 <= i < p implies (#[trigger] self.pumps@[i]).pump_number
                != pump.pump_number by {
                assert(pump_numbers@.contains(pump_numbers@[i]));
            }
            pump_numbers.push(pump.pump_number);
            match pump.ingredient_id {
                Some(id) => {
                    if !contains_id(&all_ids, id) {
                        return false;
                    }
                },
                None => {},
            }
            p = p + 1;
        }
        let mut d: usize = 0;
        while d < self.drinks.len()
            invariant
                ids == self.ids(),
                d <= self.drinks@.len(),
                all_ids@ == ids.take(self.stock() + d),
                all_ids@.no_duplicates(),
                forall|i: int| 0 <= i < d ==> (#[trigger] self.drinks@[i]).valid(),
                forall|i: int, k: int|
                    0 <= i < d && 0 <= k < self.drinks@[i].ingredient_measurements@.len()
                        ==> ids.take(self.stock() + i + 1).contains(
                        (#[trigger] self.drinks@[i].ingredient_measurements@[k]).ingredient_id,
                    ),
            decreases self.drinks@.len() - d,
        {
            let id: u128 = self.drinks[d].id;
            if !self.drinks[d].is_valid() {
                return false;
            }
            if contains_id(&all_ids, id) {
                proof {
                    // A cup, an ingredient or an earlier drink has this identifier.
                    let k = choose|k: int| 0 <= k < all_ids@.len() && all_ids@[k] == id;
                    assert(ids[k] == ids[self.stock() + d]);
                }
                return false;
            }
            all_ids.push(id);
            let mut m: usize = 0;
            while m < self.drinks[d].ingredient_measurements.len()
                invariant
                    ids == self.ids(),
                    d < self.drinks@.len(),
                    m <= self.drinks@[d as int].ingredient_measurements@.len(),
                    all_ids@ == ids.take(self.stock() + d + 1),
                    forall|k: int|
                        0 <= k < m ==> all_ids@.contains(
                            (#[trigger] self.drinks@[d as int].ingredient_measurements@[k]).ingredient_id,
                        ),
                decreases self.drinks@[d as int].ingredient_measurements@.len() - m,
            {
                let ingredient_id: u128 = self.drinks[d].ingredient_measurements[m].ingredient_id;
                if !contains_id(&all_ids, ingredient_id) {
                    return false;
                }
                m = m + 1;
            }
            d = d + 1;
        }
        assert(ids.take(self.stock() + d) == ids);
        true
    }
}

} // verus!
