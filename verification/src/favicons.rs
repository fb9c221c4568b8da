//! The icons that a browser shows for the page.
use vstd::prelude::*;
use vstd::string::StringExecFns;
use crate::markup::{escaped, joined_escaped};

verus! {

/// The icons of a page; each is linked only where it is set.
#[derive(Debug, Clone)]
pub struct FavIcons {
    pub favicon: Option<String>,
    pub apple_touch_icon: Option<String>,
    pub mask_icon: Option<MaskFavIcon>,
}

/// A mask icon and the colour it is drawn in.
#[derive(Debug, Clone)]
pub struct MaskFavIcon {
    pub href: String,
    pub color: String,
}

/// The line that links an icon: `opening`, which ends where the address
/// starts, the escaped address and the end of the tag, between two line
/// breaks; a single line break where the icon is not set.
pub open spec fn icon_line(opening: Seq<char>, href: Option<String>) -> Seq<char> {
    match href {
        Some(href) => opening + escaped(href@) + "\">\n"@,
        None => "\n"@,
    }
}

/// The line that links the mask icon, with its escaped address and colour; a
/// single line break where the icon is not set.
pub open spec fn mask_line(icon: Option<MaskFavIcon>) -> Seq<char> {
    match icon {
        Some(icon) => "\n<link rel=\"mask-icon\" href=\""@ + escaped(icon.href@) + "\" color=\""@
            + escaped(icon.color@) + "\">\n"@,
        None => "\n"@,
    }
}

/// Writes the line that links an icon.
fn icon_line_string(opening: &str, href: &Option<String>) -> (r: String)
    ensures
        r@ == icon_line(opening@, *href),
{
    match href {
        Some(href) => {
            let mut out = joined_escaped(opening, href.as_str());
            out.append("\">\n");
            out
        },
        None => "\n".to_owned(),
    }
}

/// Writes the line that links the mask icon.
fn mask_line_string(icon: &Option<MaskFavIcon>) -> (r: String)
    ensures
        r@ == mask_line(*icon),
{
    match icon {
        Some(icon) => {
            let color = joined_escaped("\" color=\"", icon.color.as_str());
            let mut out = joined_escaped("\n<link rel=\"mask-icon\" href=\"", icon.href.as_str());
            out.append(color.as_str());
            out.append("\">\n");
            proof {
                let href = "\n<link rel=\"mask-icon\" href=\""@ + escaped(icon.href@);
                assert(href + ("\" color=\""@ + escaped(icon.color@)) =~= href + "\" color=\""@
                    + escaped(icon.color@));
            }
            out
        },
        None => "\n".to_owned(),
    }
}

impl FavIcons {
    /// The icons as markup for the page's head: the lines of the icon, the
    /// touch icon and the mask icon, each after a line break, and a line
    /// break at the end.
    pub open spec fn markup(self) -> Seq<char> {
        "\n"@ + icon_line("\n<link rel=\"icon\" href=\""@, self.favicon) + "\n"@ + icon_line(
            "\n<link rel=\"apple-touch-icon\" href=\""@,
            self.apple_touch_icon,
        ) + "\n"@ + mask_line(self.mask_icon) + "\n"@
    }

    /// The icons as markup for the page's head.
    pub fn to_string(&self) -> (r: String)
        ensures
            r@ == self.markup(),
    {
        let favicon = icon_line_string("\n<link rel=\"icon\" href=\"", &self.favicon);
        let touch = icon_line_string(
            "\n<link rel=\"apple-touch-icon\" href=\"",
            &self.apple_touch_icon,
        );
        let mask = mask_line_string(&self.mask_icon);
        let mut out = crate::text::joined("\n", favicon.as_str());
        out.append("\n");
        out.append(touch.as_str());
        out.append("\n");
        out.append(mask.as_str());
        out.append("\n");
        out
    }
}

} // verus!
