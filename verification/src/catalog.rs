//! The product catalog of a store: at most twenty products in the order in
//! which they were added, no two under one name.

use crate::error::StoreError;
use crate::identity::Identity;
use crate::text::{blank, byte_len, byte_length, is_blank, MAX_NAME_BYTES};
use vstd::prelude::*;

verus! {

/// The most products a catalog holds.
pub const MAX_PRODUCTS: usize = 20;

/// A product on sale: its unit price in the smallest denomination of the
/// asset `mint`, which has `decimals` decimal places.
#[derive(Debug, PartialEq, Eq)]
pub struct Products {
    pub price: u64,
    pub decimals: u8,
    pub mint: Identity,
    pub name: String,
}

/// What a product is, with its name as a sequence of characters.
pub struct ProductView {
    pub price: u64,
    pub decimals: u8,
    pub mint: Identity,
    pub name: Seq<char>,
}

impl View for Products {
    type V = ProductView;

    open spec fn view(&self) -> ProductView {
        ProductView {
            price: self.price,
            decimals: self.decimals,
            mint: self.mint,
            name: self.name@,
        }
    }
}

impl DeepView for Products {
    type V = ProductView;

    open spec fn deep_view(&self) -> ProductView {
        self@
    }
}

impl Clone for Products {
    fn clone(&self) -> (copy: Products)
        ensures
            copy@ == self@,
    {
        Products {
            price: self.price,
            decimals: self.decimals,
            mint: self.mint,
            name: self.name.clone(),
        }
    }
}

/// A product named `name` is at index `i`, and none is before it.
pub open spec fn first_at(catalog: Seq<ProductView>, name: Seq<char>, i: int) -> bool {
    &&& 0 <= i < catalog.len()
    &&& catalog[i].name == name
    &&& forall|j: int| 0 <= j < i ==> (#[trigger] catalog[j]).name != name
}

/// Some product in the catalog is named `name`.
pub open spec fn listed(catalog: Seq<ProductView>, name: Seq<char>) -> bool {
    exists|i: int| 0 <= i < catalog.len() && (#[trigger] catalog[i]).name == name
}

/// The index of the first product named `name`, if there is one.
pub open spec fn position(catalog: Seq<ProductView>, name: Seq<char>) -> Option<int> {
    if exists|i: int| first_at(catalog, name, i) {
        Some(choose|i: int| first_at(catalog, name, i))
    } else {
        None
    }
}

/// The catalog after a request to add `product`, or the reason why it stays
/// as it is. A new product goes to the end.
pub open spec fn add_outcome(catalog: Seq<ProductView>, product: ProductView) -> Result<
    Seq<ProductView>,
    StoreError,
> {
    if blank(product.name) {
        Err(StoreError::NameEmpty)
    } else if byte_len(product.name) > MAX_NAME_BYTES {
        Err(StoreError::NameTooLong)
    } else if listed(catalog, product.name) {
        Err(StoreError::DuplicateName)
    } else if catalog.len() >= MAX_PRODUCTS {
        Err(StoreError::CapacityExceeded)
    } else {
        Ok(catalog.push(product))
    }
}

/// The catalog after a request to remove the product named `name`, or the
/// reason why it stays as it is. The other products keep their order.
pub open spec fn remove_outcome(catalog: Seq<ProductView>, name: Seq<char>) -> Result<
    Seq<ProductView>,
    StoreError,
> {
    match position(catalog, name) {
        Some(i) => Ok(catalog.remove(i)),
        None => Err(StoreError::NotFound),
    }
}

/// The catalog after each of `products` was offered to it in turn; a
/// product that is refused leaves it as it was.
pub open spec fn add_all(catalog: Seq<ProductView>, products: Seq<ProductView>) -> Seq<
    ProductView,
>
    decreases products.len(),
{
    if products.len() == 0 {
        catalog
    } else {
        let before = add_all(catalog, products.drop_last());
        match add_outcome(before, products.last()) {
            Ok(next) => next,
            Err(_) => before,
        }
    }
}

/// Products under names that are not blank and not too long.
pub open spec fn well_named(products: Seq<ProductView>) -> bool {
    forall|i: int|
        0 <= i < products.len() ==> {
            &&& !blank((#[trigger] products[i]).name)
            &&& byte_len(products[i].name) <= MAX_NAME_BYTES
        }
}

/// Products of which no two share a name.
pub open spec fn distinctly_named(products: Seq<ProductView>) -> bool {
    forall|i: int, j: int|
        0 <= i < j < products.len() ==> (#[trigger] products[i]).name != (
        #[trigger] products[j]).name
}

/// Products that can all be on sale side by side, room permitting.
pub open spec fn fit_for_sale(products: Seq<ProductView>) -> bool {
    well_named(products) && distinctly_named(products)
}

/// A catalog within its bounds: at most `MAX_PRODUCTS` products, each
/// under a name of its own that is not blank and not too long.
pub open spec fn well_formed(catalog: Seq<ProductView>) -> bool {
    catalog.len() <= MAX_PRODUCTS && fit_for_sale(catalog)
}

/// The index of the first product named `name`.
pub fn locate(catalog: &Vec<Products>, name: &String) -> (at: Option<usize>)
    ensures
        match at {
            Some(i) => position(catalog.deep_view(), name@) == Some(i as int),
            None => position(catalog.deep_view(), name@) is None,
        },
{
    let mut i: usize = 0;
    while i < catalog.len()
        invariant
            i <= catalog.len(),
            forall|j: int| 0 <= j < i ==> (#[trigger] catalog.deep_view()[j]).name != name@,
        decreases catalog.len() - i,
    {
        if catalog[i].name == *name {
            proof {
                assert(first_at(catalog.deep_view(), name@, i as int));
                position_is_first(catalog.deep_view(), name@);
            }
            return Some(i);
        }
        i += 1;
    }
    proof {
        position_is_first(catalog.deep_view(), name@);
    }
    None
}

/// The first product named `name`.
pub fn find<'a>(catalog: &'a Vec<Products>, name: &String) -> (found: Option<&'a Products>)
    ensures
        match position(catalog.deep_view(), name@) {
            Some(i) => found is Some && found.unwrap()@ == catalog.deep_view()[i],
            None => found is None,
        },
{
    match locate(catalog, name) {
        Some(i) => Some(&catalog[i]),
        None => None,
    }
}

/// Adds `product` at the end of the catalog, unless its name is blank, too
/// long or taken, or the catalog is full.
pub fn add(catalog: &mut Vec<Products>, product: Products) -> (done: Result<(), StoreError>)
    ensures
        match add_outcome(old(catalog).deep_view(), product@) {
            Ok(next) => done is Ok && final(catalog).deep_view() == next,
            Err(why) => {
                &&& done == Err::<(), StoreError>(why)
                &&& final(catalog).deep_view() == old(catalog).deep_view()
            },
        },
{
    if is_blank(product.name.as_str()) {
        return Err(StoreError::NameEmpty);
    }
    if byte_length(product.name.as_str()) > MAX_NAME_BYTES {
        return Err(StoreError::NameTooLong);
    }
    proof {
        position_is_first(catalog.deep_view(), product.name@);
    }
    if locate(catalog, &product.name).is_some() {
        return Err(StoreError::DuplicateName);
    }
    if catalog.len() >= MAX_PRODUCTS {
        return Err(StoreError::CapacityExceeded);
    }
    catalog.push(product);
    assert(catalog.deep_view() =~= old(catalog).deep_view().push(product@));
    Ok(())
}

/// Takes the first product named `name` out of the catalog and hands it
/// over.
pub fn remove(catalog: &mut Vec<Products>, name: &String) -> (done: Result<Products, StoreError>)
    ensures
        match remove_outcome(old(catalog).deep_view(), name@) {
            Ok(next) => {
                &&& done is Ok
                &&& done.unwrap()@ == old(catalog).deep_view()[position(
                    old(catalog).deep_view(),
                    name@,
                ).unwrap()]
                &&& final(catalog).deep_view() == next
            },
            Err(why) => {
                &&& done is Err
                &&& done.unwrap_err() == why
                &&& final(catalog).deep_view() == old(catalog).deep_view()
            },
        },
{
    match locate(catalog, name) {
        Some(i) => {
            let product = catalog.remove(i);
            assert(catalog.deep_view() =~= old(catalog).deep_view().remove(i as int));
            Ok(product)
        },
        None => Err(StoreError::NotFound),
    }
}

/// At most one index is the first under a name, and `position` is that
/// index; a name is listed exactly when it has a position.
pub proof fn position_is_first(catalog: Seq<ProductView>, name: Seq<char>)
    ensures
        listed(catalog, name) <==> position(catalog, name) is Some,
        forall|i: int| first_at(catalog, name, i) <==> position(catalog, name) == Some(i),
{
    if listed(catalog, name) {
        let k = choose|i: int| 0 <= i < catalog.len() && (#[trigger] catalog[i]).name == name;
        first_exists(catalog, name, k);
    }
    if exists|i: int| first_at(catalog, name, i) {
        let p = choose|i: int| first_at(catalog, name, i);
        assert forall|i: int| first_at(catalog, name, i) implies i == p by {
            if i < p {
                assert(catalog[i].name != name);
            } else if p < i {
                assert(catalog[p].name != name);
            }
        }
    }
}

/// Below any index under `name` lies the first one.
proof fn first_exists(catalog: Seq<ProductView>, name: Seq<char>, k: int)
    requires
        0 <= k < catalog.len(),
        catalog[k].name == name,
    ensures
        exists|i: int| first_at(catalog, name, i),
    decreases k,
{
    if forall|j: int| 0 <= j < k ==> (#[trigger] catalog[j]).name != name {
        assert(first_at(catalog, name, k));
    } else {
        let j = choose|j: int| 0 <= j < k && (#[trigger] catalog[j]).name == name;
        first_exists(catalog, name, j);
    }
}

/// Adding a product keeps a catalog well formed, and makes it one longer.
pub proof fn add_keeps_well_formed(catalog: Seq<ProductView>, product: ProductView)
    requires
        well_formed(catalog),
    ensures
        add_outcome(catalog, product) matches Ok(next) ==> {
            &&& well_formed(next)
            &&& next.len() == catalog.len() + 1
        },
{
    if let Ok(next) = add_outcome(catalog, product) {
        assert forall|i: int, j: int| 0 <= i < j < next.len() implies (#[trigger] next[i]).name
            != (#[trigger] next[j]).name by {
            if j == catalog.len() {
                assert(catalog[i].name != product.name);
            }
        }
    }
}

/// Removing a product keeps a catalog well formed and makes it one
/// shorter, and the name is no longer listed afterwards.
pub proof fn remove_keeps_well_formed(catalog: Seq<ProductView>, name: Seq<char>)
    requires
        well_formed(catalog),
    ensures
        remove_outcome(catalog, name) matches Ok(next) ==> {
            &&& well_formed(next)
            &&& next.len() + 1 == catalog.len()
            &&& !listed(next, name)
        },
{
    position_is_first(catalog, name);
    if let Ok(next) = remove_outcome(catalog, name) {
        let at = position(catalog, name).unwrap();
        assert(first_at(catalog, name, at));
        // Entry `i` of the shorter catalog was at `past(i)` before.
        let past = |i: int|
            if i < at {
                i
            } else {
                i + 1
            };
        assert forall|i: int| 0 <= i < next.len() implies (#[trigger] next[i]) == catalog[past(
            i,
        )] by {}
        assert forall|i: int, j: int| 0 <= i < j < next.len() implies (#[trigger] next[i]).name
            != (#[trigger] next[j]).name by {
            assert(catalog[past(i)].name != catalog[past(j)].name);
        }
        assert forall|i: int| 0 <= i < next.len() implies (#[trigger] next[i]).name != name by {
            if past(i) < at {
                assert(catalog[past(i)].name != name);
            } else {
                assert(catalog[at].name != catalog[past(i)].name);
            }
        }
    }
}

/// Whatever is offered to it, and however often, a catalog never grows
/// beyond `MAX_PRODUCTS` products.
pub proof fn catalog_never_exceeds_capacity(
    catalog: Seq<ProductView>,
    products: Seq<ProductView>,
)
    requires
        catalog.len() <= MAX_PRODUCTS,
    ensures
        add_all(catalog, products).len() <= MAX_PRODUCTS,
    decreases products.len(),
{
    if products.len() > 0 {
        catalog_never_exceeds_capacity(catalog, products.drop_last());
    }
}

/// Of products fit for sale that are offered to an empty catalog in turn,
/// the first `MAX_PRODUCTS` are taken in their order, and every later one
/// is refused because the catalog is full.
pub proof fn full_catalog_refuses(products: Seq<ProductView>, k: int)
    requires
        fit_for_sale(products),
        0 <= k < products.len(),
    ensures
        k <= MAX_PRODUCTS ==> add_all(Seq::empty(), products.take(k)) == products.take(k),
        k >= MAX_PRODUCTS ==> add_all(Seq::empty(), products.take(k)) == products.take(
            MAX_PRODUCTS as int,
        ),
        k < MAX_PRODUCTS ==> add_outcome(add_all(Seq::empty(), products.take(k)), products[k])
            == Ok::<Seq<ProductView>, StoreError>(products.take(k + 1)),
        k >= MAX_PRODUCTS ==> add_outcome(add_all(Seq::empty(), products.take(k)), products[k])
            == Err::<Seq<ProductView>, StoreError>(StoreError::CapacityExceeded),
    decreases k,
{
    let before = add_all(Seq::empty(), products.take(k));
    if k == 0 {
        assert(products.take(0) =~= Seq::<ProductView>::empty());
    } else {
        full_catalog_refuses(products, k - 1);
        assert(products.take(k).drop_last() =~= products.take(k - 1));
        assert(products.take(k).last() == products[k - 1]);
    }
    assert forall|i: int| 0 <= i < before.len() implies (#[trigger] before[i]).name
        != products[k].name by {
        assert(before[i] == products[i]);
    }
    if k < MAX_PRODUCTS {
        assert(before.push(products[k]) =~= products.take(k + 1));
    }
}

} // verus!
