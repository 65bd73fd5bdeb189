use vstd::prelude::*;

use crate::seq_find::{first_where, lemma_first_where_is};
use crate::text::same_text;

verus! {

/// One named property that the display server attaches to a record.
///
/// The server's values are of many shapes. The library keeps of each value
/// what it reads: the unsigned integer that the value stands for, where it
/// stands for one (a boolean stands for 0 or 1), and a rendering as text.
#[derive(Debug, PartialEq, Eq)]
pub struct Property {
    pub key: String,
    pub number: Option<u64>,
    pub text: String,
}

/// A property as plain values.
pub struct PropertyView {
    pub key: Seq<char>,
    pub number: Option<u64>,
    pub text: Seq<char>,
}

impl View for Property {
    type V = PropertyView;

    open spec fn view(&self) -> PropertyView {
        PropertyView { key: self.key@, number: self.number, text: self.text@ }
    }
}

impl Clone for Property {
    fn clone(&self) -> (copy: Self)
        ensures
            copy@ == self@,
    {
        Property { key: self.key.clone(), number: self.number, text: self.text.clone() }
    }
}

/// The properties of a list, each as plain values.
pub open spec fn properties_view(properties: Seq<Property>) -> Seq<PropertyView> {
    properties.map_values(|p: Property| p@)
}

/// The condition of being named `key`.
pub open spec fn named(key: Seq<char>) -> spec_fn(PropertyView) -> bool {
    |p: PropertyView| p.key == key
}

/// The number that the first property named `key` stands for, if there is
/// such a property and it stands for a number.
pub open spec fn number_of(properties: Seq<PropertyView>, key: Seq<char>) -> Option<u64> {
    let at = first_where(properties, named(key));
    if at < properties.len() {
        properties[at].number
    } else {
        None
    }
}

/// The truth value that the property named `key` stands for: 1 is true, 0 is
/// false, and anything else is no truth value.
pub open spec fn flag_of(properties: Seq<PropertyView>, key: Seq<char>) -> Option<bool> {
    match number_of(properties, key) {
        Some(n) => if n == 1 {
            Some(true)
        } else if n == 0 {
            Some(false)
        } else {
            None
        },
        None => None,
    }
}

/// Reads the number that the property named `key` stands for.
pub fn lookup_number(properties: &Vec<Property>, key: &str) -> (number: Option<u64>)
    ensures
        number == number_of(properties_view(properties@), key@),
{
    let mut i: usize = 0;
    while i < properties.len()
        invariant
            i <= properties@.len(),
            forall|k: int|
                0 <= k < i ==> !named(key@)(#[trigger] properties_view(properties@)[k]),
        decreases properties@.len() - i,
    {
        if same_text(properties[i].key.as_str(), key) {
            proof {
                lemma_first_where_is(properties_view(properties@), named(key@), i as int);
            }
            return properties[i].number;
        }
        i += 1;
    }
    proof {
        lemma_first_where_is(properties_view(properties@), named(key@), i as int);
    }
    None
}

/// Reads the truth value that the property named `key` stands for.
pub fn lookup_flag(properties: &Vec<Property>, key: &str) -> (flag: Option<bool>)
    ensures
        flag == flag_of(properties_view(properties@), key@),
{
    match lookup_number(properties, key) {
        Some(1) => Some(true),
        Some(0) => Some(false),
        _ => None,
    }
}

/// The texts of a list of keys.
pub open spec fn keys_view(keys: Seq<&str>) -> Seq<Seq<char>> {
    keys.map_values(|k: &str| k@)
}

/// The condition of being named by none of `keys`.
pub open spec fn unlisted(keys: Seq<Seq<char>>) -> spec_fn(PropertyView) -> bool {
    |p: PropertyView| !keys.contains(p.key)
}

/// Tells whether `key` is one of `keys`.
pub fn is_listed(keys: &[&str], key: &str) -> (listed: bool)
    ensures
        listed == keys_view(keys@).contains(key@),
{
    let mut i: usize = 0;
    while i < keys.len()
        invariant
            i <= keys@.len(),
            forall|k: int| 0 <= k < i ==> keys_view(keys@)[k] != key@,
        decreases keys@.len() - i,
    {
        if same_text(keys[i], key) {
            assert(keys_view(keys@)[i as int] == key@);
            return true;
        }
        i += 1;
    }
    false
}

/// Keeps, in their order, the properties that none of `keys` names.
pub fn without_keys(properties: Vec<Property>, keys: &[&str]) -> (rest: Vec<Property>)
    ensures
        properties_view(rest@) == properties_view(properties@).filter(
            unlisted(keys_view(keys@)),
        ),
{
    let ghost all = properties@;
    let ghost keep = unlisted(keys_view(keys@));
    let mut rest: Vec<Property> = Vec::new();
    assert(properties_view(all.take(0)).filter(keep) =~= Seq::<PropertyView>::empty()) by {
        reveal(Seq::filter);
    }
    for property in it: properties
        invariant
            it.seq() == all,
            keep == unlisted(keys_view(keys@)),
            properties_view(rest@) == properties_view(all.take(it.index())).filter(keep),
    {
        proof {
            let before = properties_view(all.take(it.index()));
            let after = properties_view(all.take(it.index() + 1));
            assert(after.drop_last() =~= before);
            reveal(Seq::filter);
        }
        if !is_listed(keys, property.key.as_str()) {
            rest.push(property);
        }
    }
    assert(all.take(all.len() as int) =~= all);
    rest
}

} // verus!
