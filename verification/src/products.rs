//! The text fields of a minute package as the administration stores them
//! from its product form; fields the form leaves out take fixed defaults.

use vstd::prelude::*;

verus! {

/// The title stored for a product whose form sends none.
pub open spec fn untitled() -> Seq<char> {
    "NADA INFORMADO"@
}

/// The text fields of a product record.
#[derive(Debug)]
pub struct ProductTexts {
    pub product_title: String,
    pub product_description: String,
    pub product_image: String,
}

/// The text fields stored from a product form: each field sent is kept as
/// it is; a missing title becomes "NADA INFORMADO", a missing description
/// the empty text, and a missing image `image_fallback` (the server uses
/// "/" for a new product and the empty text for an edited one).
pub fn product_texts(
    title: Option<&str>,
    description: Option<&str>,
    image: Option<String>,
    image_fallback: &str,
) -> (res: ProductTexts)
    ensures
        res.product_title@ == match title {
            Some(t) => t@,
            None => untitled(),
        },
        res.product_description@ == match description {
            Some(d) => d@,
            None => Seq::<char>::empty(),
        },
        res.product_image@ == match image {
            Some(i) => i@,
            None => image_fallback@,
        },
{
    let product_title = match title {
        Some(t) => String::from_str(t),
        None => {
            proof {
                reveal_strlit("NADA INFORMADO");
            }
            String::from_str("NADA INFORMADO")
        },
    };
    let product_description = match description {
        Some(d) => String::from_str(d),
        None => String::new(),
    };
    let product_image = match image {
        Some(i) => i,
        None => String::from_str(image_fallback),
    };
    ProductTexts { product_title, product_description, product_image }
}

} // verus!
