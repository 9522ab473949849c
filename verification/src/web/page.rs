//! Product and category pages: breadcrumbs and the structured data (JSON-LD) they embed.

use vstd::prelude::*;

use crate::catalog::search::{CatalogCard, ProductCard};
use crate::text::{clone_opt_string, opt_view};
use crate::web::jsonld::{
    absolute_url, format_price_minor, price_text, BreadcrumbList, ItemList, ItemListElement,
    ItemProduct, ListItem, Offer, Product,
};

verus! {

/// The crumbs of a page: the home page, then the parent category when there is one
/// (`(name, slug)`), then the current page without a link.
pub open spec fn crumbs_spec(parent: Option<(Seq<char>, Seq<char>)>, current: Seq<char>) -> Seq<
    (Seq<char>, Option<Seq<char>>),
> {
    match parent {
        Some((name, slug)) => seq![
            ("Головна"@, Some("/"@)),
            (name, Some("/c/"@ + slug)),
            (current, None),
        ],
        None => seq![("Головна"@, Some("/"@)), (current, None)],
    }
}

/// The crumbs as plain values.
pub open spec fn crumbs_view(c: Seq<(String, Option<String>)>) -> Seq<(Seq<char>, Option<Seq<char>>)> {
    c.map_values(|x: (String, Option<String>)| (x.0@, opt_view(x.1)))
}

/// Breadcrumbs of a product or category page.
pub fn page_crumbs(parent: Option<(&str, &str)>, current: &str) -> (r: Vec<(String, Option<String>)>)
    ensures
        crumbs_view(r@) == crumbs_spec(
            match parent {
                Some((n, s)) => Some((n@, s@)),
                None => None,
            },
            current@,
        ),
{
    let mut r: Vec<(String, Option<String>)> = Vec::new();
    r.push(("Головна".to_string(), Some("/".to_string())));
    match parent {
        Some((name, slug)) => {
            let mut href = String::new();
            href.append("/c/");
            href.append(slug);
            r.push((name.to_string(), Some(href)));
        },
        None => {},
    }
    r.push((current.to_string(), None));
    assert(crumbs_view(r@) =~= crumbs_spec(
        match parent {
            Some((n, s)) => Some((n@, s@)),
            None => None,
        },
        current@,
    ));
    r
}

/// Element `i` of the `BreadcrumbList` of `crumbs`: position `i + 1`, the crumb's name, and the
/// absolute URL of the crumb's link (of `current_path` for the crumb without a link).
pub open spec fn breadcrumb_item_ok(
    li: ListItem,
    base_url: Seq<char>,
    crumb: (String, Option<String>),
    current_path: Seq<char>,
    i: int,
) -> bool {
    &&& li.type_@ == "ListItem"@
    &&& li.position as int == (i + 1) as u32 as int
    &&& li.name@ == crumb.0@
    &&& li.item@ == base_url + match crumb.1 {
        Some(u) => u@,
        None => current_path,
    }
}

/// The `BreadcrumbList` structured data of a page.
pub fn breadcrumb_list(base_url: &str, crumbs: &[(String, Option<String>)], current_path: &str) -> (r:
    BreadcrumbList)
    ensures
        r.context@ == "https://schema.org"@,
        r.type_@ == "BreadcrumbList"@,
        r.item_list_element@.len() == crumbs@.len(),
        forall|i: int|
            0 <= i < crumbs@.len() ==> #[trigger] breadcrumb_item_ok(
                r.item_list_element@[i],
                base_url@,
                crumbs@[i],
                current_path@,
                i,
            ),
{
    let mut items: Vec<ListItem> = Vec::new();
    let mut i: usize = 0;
    while i < crumbs.len()
        invariant
            i <= crumbs@.len(),
            items@.len() == i,
            forall|j: int|
                0 <= j < i ==> #[trigger] breadcrumb_item_ok(
                    items@[j],
                    base_url@,
                    crumbs@[j],
                    current_path@,
                    j,
                ),
        decreases crumbs@.len() - i,
    {
        let (name, url) = &crumbs[i];
        let item = match url {
            Some(u) => absolute_url(base_url, u.as_str()),
            None => absolute_url(base_url, current_path),
        };
        let position: u32 = #[verifier::truncate] ((i + 1) as u32);
        items.push(ListItem { type_: "ListItem", position, name: name.clone(), item });
        i += 1;
    }
    BreadcrumbList { context: "https://schema.org", type_: "BreadcrumbList", item_list_element: items }
}

/// The `Product` structured data of a product page: name and description from the catalog
/// snapshot, the image as an absolute URL, and an in-stock `Offer` at the formatted price.
pub fn product_ld(base_url: &str, card: &CatalogCard) -> (r: Product)
    ensures
        r.context@ == "https://schema.org"@,
        r.type_@ == "Product"@,
        r.name@ == card.title@,
        r.description@ == card.description@,
        opt_view(r.image) == match card.thumb {
            Some(t) => Some(base_url@ + t@),
            None => None,
        },
        r.offers.type_@ == "Offer"@,
        r.offers.price@ == price_text(card.price_minor as int),
        r.offers.price_currency@ == card.currency@,
        r.offers.availability@ == "https://schema.org/InStock"@,
{
    let image = match &card.thumb {
        Some(t) => Some(absolute_url(base_url, t.as_str())),
        None => None,
    };
    Product {
        context: "https://schema.org",
        type_: "Product",
        name: card.title.clone(),
        description: card.description.clone(),
        image,
        offers: Offer {
            type_: "Offer",
            price: format_price_minor(card.price_minor),
            price_currency: card.currency.clone(),
            availability: "https://schema.org/InStock",
        },
    }
}

/// Element `i` of the `ItemList` of a listing: position `i + 1`, and the product's title, page
/// URL and (absolute) image.
pub open spec fn item_element_ok(e: ItemListElement, base_url: Seq<char>, card: ProductCard, i: int) -> bool {
    &&& e.type_@ == "ListItem"@
    &&& e.position as int == (i + 1) as u32 as int
    &&& e.item.type_@ == "Product"@
    &&& e.item.name@ == card.title@
    &&& e.item.url@ == base_url + "/p/"@ + card.slug@
    &&& opt_view(e.item.image) == match card.thumb {
        Some(t) => Some(base_url + t@),
        None => None,
    }
}

/// The `ItemList` structured data of a listing page.
pub fn item_list(base_url: &str, items: &[ProductCard]) -> (r: ItemList)
    ensures
        r.context@ == "https://schema.org"@,
        r.type_@ == "ItemList"@,
        r.item_list_element@.len() == items@.len(),
        forall|i: int|
            0 <= i < items@.len() ==> #[trigger] item_element_ok(
                r.item_list_element@[i],
                base_url@,
                items@[i],
                i,
            ),
{
    let mut out: Vec<ItemListElement> = Vec::new();
    let mut i: usize = 0;
    while i < items.len()
        invariant
            i <= items@.len(),
            out@.len() == i,
            forall|j: int|
                0 <= j < i ==> #[trigger] item_element_ok(out@[j], base_url@, items@[j], j),
        decreases items@.len() - i,
    {
        let card = &items[i];
        let url = crate::web::sitemap::product_loc(base_url, card.slug.as_str());
        let image = match &card.thumb {
            Some(t) => Some(absolute_url(base_url, t.as_str())),
            None => None,
        };
        let position: u32 = #[verifier::truncate] ((i + 1) as u32);
        out.push(
            ItemListElement {
                type_: "ListItem",
                position,
                item: ItemProduct { type_: "Product", name: card.title.clone(), url, image },
            },
        );
        i += 1;
    }
    ItemList { context: "https://schema.org", type_: "ItemList", item_list_element: out }
}

} // verus!
