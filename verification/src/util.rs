//! A configuration value given either as one string or as a list.
use vstd::prelude::*;

verus! {

/// One string or a list of strings, as a list.
pub struct StringOrList(pub Vec<String>);

impl View for StringOrList {
    type V = Seq<Seq<char>>;

    open spec fn view(&self) -> Seq<Seq<char>> {
        self.0@.map_values(|s: String| s@)
    }
}

impl StringOrList {
    /// The list of one string.
    pub fn single(s: String) -> (r: Self)
        ensures
            r@ == seq![s@],
    {
        let r = StringOrList(vec![s]);
        assert(r@ =~= seq![s@]);
        r
    }

    /// The strings, in order.
    pub fn values(&self) -> (r: &Vec<String>)
        ensures
            r@ == self.0@,
    {
        &self.0
    }
}

impl IntoIterator for StringOrList {
    type Item = String;
    type IntoIter = std::vec::IntoIter<String>;

    /// Hands out the strings by value, in order.
    fn into_iter(self) -> (r: Self::IntoIter)
        ensures
            vstd::std_specs::vec::into_iter_elts(r) == self.0@,
    {
        self.0.into_iter()
    }
}

impl AsRef<[String]> for StringOrList {
    /// The strings, in order, as a slice.
    fn as_ref(&self) -> (r: &[String])
        ensures
            r@ == self.0@,
    {
        self.0.as_slice()
    }
}

impl<'a> IntoIterator for &'a StringOrList {
    type Item = &'a String;
    type IntoIter = std::slice::Iter<'a, String>;

    /// Lends out the strings, in order.
    fn into_iter(self) -> (r: Self::IntoIter)
        ensures
            vstd::std_specs::slice::into_iter_elts(r) == self.0@,
    {
        broadcast use vstd::std_specs::slice::group_slice_axioms;
        self.0.iter()
    }
}

} // verus!
