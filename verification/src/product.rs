//! The product service: a fixed catalog of hats, listed whole or looked up by
//! universal product code.

use vstd::prelude::*;

verus! {

/// The address that the product service listens on.
pub const BIND_ADDRESS: &'static str = "0.0.0.0:4002";

/// One entry of the catalog.
#[derive(Debug, Clone, PartialEq, Eq)]
pub struct Product {
    pub upc: String,
    pub name: String,
    pub price: i32,
}

/// What a [`Product`] stands for in contracts.
pub struct ProductView {
    pub upc: Seq<char>,
    pub name: Seq<char>,
    pub price: int,
}

impl View for Product {
    type V = ProductView;

    open spec fn view(&self) -> ProductView {
        ProductView { upc: self.upc@, name: self.name@, price: self.price as int }
    }
}

impl DeepView for Product {
    type V = ProductView;

    open spec fn deep_view(&self) -> ProductView {
        self@
    }
}

/// The catalog that the service is started with: three hats, in this order.
pub open spec fn catalog_view() -> Seq<ProductView> {
    seq![
        ProductView { upc: "top-1"@, name: "Trilby"@, price: 11 },
        ProductView { upc: "top-2"@, name: "Fedora"@, price: 22 },
        ProductView { upc: "top-3"@, name: "Boater"@, price: 33 },
    ]
}

/// Some entry of `hats` carries the code `upc`.
pub open spec fn carries(hats: Seq<ProductView>, upc: Seq<char>) -> bool {
    exists|i: int| 0 <= i < hats.len() && #[trigger] hats[i].upc == upc
}

/// Entry `i` of `hats` carries the code `upc`, and no entry before it does.
pub open spec fn is_first_match(hats: Seq<ProductView>, upc: Seq<char>, i: int) -> bool {
    &&& 0 <= i < hats.len()
    &&& hats[i].upc == upc
    &&& forall|j: int| 0 <= j < i ==> #[trigger] hats[j].upc != upc
}

/// Where a lookup of `upc` lands in `hats`: the index of the first entry with
/// that code, or `None` where no entry has it.
pub open spec fn first_position(hats: Seq<ProductView>, upc: Seq<char>) -> Option<int> {
    if carries(hats, upc) {
        Some(choose|i: int| is_first_match(hats, upc, i))
    } else {
        None
    }
}

/// No two entries of `hats` share a code.
pub open spec fn distinct_codes(hats: Seq<ProductView>) -> bool {
    forall|i: int, j: int|
        0 <= i < j < hats.len() ==> #[trigger] hats[i].upc != #[trigger] hats[j].upc
}

/// An index that is a first match is the one that `first_position` names.
pub proof fn lemma_first_match_is_position(hats: Seq<ProductView>, upc: Seq<char>, i: int)
    requires
        is_first_match(hats, upc, i),
    ensures
        first_position(hats, upc) == Some(i),
{
    let k = choose|k: int| is_first_match(hats, upc, k);
    assert(is_first_match(hats, upc, k));
    if k < i {
        assert(hats[k].upc != upc);
    }
    if i < k {
        assert(hats[i].upc != upc);
    }
}

/// Builds the catalog that the service is started with.
pub fn catalog() -> (hats: Vec<Product>)
    ensures
        hats.deep_view() == catalog_view(),
{
    let mut hats: Vec<Product> = Vec::new();
    hats.push(Product { upc: "top-1".to_string(), name: "Trilby".to_string(), price: 11 });
    hats.push(Product { upc: "top-2".to_string(), name: "Fedora".to_string(), price: 22 });
    hats.push(Product { upc: "top-3".to_string(), name: "Boater".to_string(), price: 33 });
    assert(hats.deep_view() =~= catalog_view());
    hats
}

/// The root of the product service's queries.
pub struct Query;

impl Query {
    /// The whole catalog, in the order in which it was built.
    pub fn top_products<'a>(&self, hats: &'a Vec<Product>) -> (listed: &'a Vec<Product>)
        ensures
            listed == hats,
    {
        hats
    }

    /// The first entry of `hats` whose code is `upc`; `None` where no entry
    /// has that code.
    pub fn find_product_by_upc<'a>(&self, hats: &'a Vec<Product>, upc: String) -> (found: Option<
        &'a Product,
    >)
        ensures
            found == match first_position(hats.deep_view(), upc@) {
                Some(i) => Some(&hats@[i]),
                None => None,
            },
    {
        let mut i: usize = 0;
        while i < hats.len()
            invariant
                i <= hats.len(),
                forall|j: int| 0 <= j < i ==> #[trigger] hats.deep_view()[j].upc != upc@,
            decreases hats.len() - i,
        {
            if hats[i].upc == upc {
                proof {
                    lemma_first_match_is_position(hats.deep_view(), upc@, i as int);
                }
                return Some(&hats[i]);
            }
            i += 1;
        }
        None
    }
}

/// In a list without repeated codes, a lookup of the code of any entry lands
/// on that very entry.
pub proof fn lookup_finds_each_entry(hats: Seq<ProductView>, i: int)
    requires
        distinct_codes(hats),
        0 <= i < hats.len(),
    ensures
        first_position(hats, hats[i].upc) == Some(i),
{
    assert forall|j: int| 0 <= j < i implies #[trigger] hats[j].upc != hats[i].upc by {}
    lemma_first_match_is_position(hats, hats[i].upc, i);
}

/// The three codes of the catalog differ from one another.
pub proof fn catalog_codes_are_distinct()
    ensures
        distinct_codes(catalog_view()),
{
    reveal_strlit("top-1");
    reveal_strlit("top-2");
    reveal_strlit("top-3");
    let hats = catalog_view();
    assert(hats[0].upc[4] == '1');
    assert(hats[1].upc[4] == '2');
    assert(hats[2].upc[4] == '3');
}

/// The catalog holds exactly three hats, in a fixed order: Trilby at 11,
/// Fedora at 22, Boater at 33. A list that `top_products` hands back for the
/// catalog that `catalog` built is that list.
pub proof fn top_products_of_catalog(root: Query, hats: Vec<Product>, listed: &Vec<Product>)
    requires
        call_ensures(catalog, (), hats),
        call_ensures(Query::top_products, (&root, &hats), listed),
    ensures
        listed.deep_view().len() == 3,
        listed.deep_view()[0] == (ProductView { upc: "top-1"@, name: "Trilby"@, price: 11 }),
        listed.deep_view()[1] == (ProductView { upc: "top-2"@, name: "Fedora"@, price: 22 }),
        listed.deep_view()[2] == (ProductView { upc: "top-3"@, name: "Boater"@, price: 33 }),
{
}

/// A lookup in the catalog by the code of one of its three hats gives that
/// hat; a lookup by any other code gives nothing.
pub proof fn catalog_lookup(upc: Seq<char>)
    ensures
        forall|i: int|
            0 <= i < catalog_view().len() ==> first_position(
                catalog_view(),
                #[trigger] catalog_view()[i].upc,
            ) == Some(i),
        upc != "top-1"@ && upc != "top-2"@ && upc != "top-3"@ ==> first_position(
            catalog_view(),
            upc,
        ) is None,
{
    catalog_codes_are_distinct();
    assert forall|i: int| 0 <= i < catalog_view().len() implies first_position(
        catalog_view(),
        #[trigger] catalog_view()[i].upc,
    ) == Some(i) by {
        lookup_finds_each_entry(catalog_view(), i);
    }
}

/// A lookup in the catalog that `catalog` built answers with the first hat
/// for the code `top-1`, the second for `top-2`, the third for `top-3`, and
/// with nothing for every other code.
pub proof fn find_in_catalog(root: Query, hats: Vec<Product>, upc: String, found: Option<&Product>)
    requires
        call_ensures(catalog, (), hats),
        call_ensures(Query::find_product_by_upc, (&root, &hats, upc), found),
    ensures
        hats@.len() == 3,
        upc@ == "top-1"@ ==> found == Some(&hats@[0]),
        upc@ == "top-2"@ ==> found == Some(&hats@[1]),
        upc@ == "top-3"@ ==> found == Some(&hats@[2]),
        upc@ != "top-1"@ && upc@ != "top-2"@ && upc@ != "top-3"@ ==> found is None,
        found matches Some(hat) ==> hat@.upc == upc@,
{
    catalog_lookup(upc@);
    let listed = hats.deep_view();
    assert(listed[0].upc == "top-1"@);
    assert(listed[1].upc == "top-2"@);
    assert(listed[2].upc == "top-3"@);
}

} // verus!
