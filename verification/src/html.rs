//! The HTML that the vanilla-JS renderers write: the htmx attributes of a
//! routed element, and the page around rendered content.
use vstd::prelude::*;

use crate::text::{decimal, push_decimal, push_str, string_from_chars, to_string};

verus! {

/// What an htmx request's response replaces.
#[derive(Debug, Clone, Copy, PartialEq, Eq, Structural)]
pub enum SwapTarget {
    /// The element itself.
    This,
    /// The element's children.
    Children,
}

/// The request an element makes, and where its response goes.
#[derive(Debug, Clone, PartialEq)]
pub enum Route {
    Get { route: String, trigger: Option<String>, swap: SwapTarget },
    Post { route: String, trigger: Option<String>, swap: SwapTarget },
}

/// The `hx-swap` value for a swap target.
pub open spec fn swap_value(swap: SwapTarget) -> Seq<char> {
    match swap {
        SwapTarget::This => "outerHTML"@,
        SwapTarget::Children => "innerHTML"@,
    }
}

/// The `hx-trigger` attribute, where the route has a trigger.
pub open spec fn trigger_attr(trigger: Option<String>) -> Seq<(Seq<char>, Seq<char>)> {
    match trigger {
        Some(t) => seq![("hx-trigger"@, t@)],
        None => Seq::empty(),
    }
}

/// The htmx attributes of an element with `route`, in the order written. A
/// POST route writes `hx-swap` twice, the second time as `outerHTML`.
pub open spec fn route_attributes(route: Route) -> Seq<(Seq<char>, Seq<char>)> {
    match route {
        Route::Get { route, trigger, swap } => seq![("hx-swap"@, swap_value(swap)), ("hx-get"@, route@)]
            + trigger_attr(trigger),
        Route::Post { route, trigger, swap } => seq![
            ("hx-swap"@, swap_value(swap)),
            ("hx-swap"@, "outerHTML"@),
            ("hx-post"@, route@),
        ] + trigger_attr(trigger),
    }
}

/// The attributes as text pairs.
pub open spec fn attributes_view(attrs: Seq<(String, String)>) -> Seq<(Seq<char>, Seq<char>)> {
    attrs.map_values(|a: (String, String)| (a.0@, a.1@))
}

/// The `hx-swap` value for a swap target.
fn swap_value_of(swap: SwapTarget) -> (r: String)
    ensures
        r@ == swap_value(swap),
{
    match swap {
        SwapTarget::This => to_string("outerHTML"),
        SwapTarget::Children => to_string("innerHTML"),
    }
}

/// The htmx attributes (name, value) of an element with `route`, in order.
pub fn route_attrs(route: &Route) -> (r: Vec<(String, String)>)
    ensures
        attributes_view(r@) == route_attributes(*route),
        match *route {
            Route::Get { route: p, trigger, .. } => {
                &&& attributes_view(r@).contains(("hx-get"@, p@))
                &&& trigger matches Some(t) ==> attributes_view(r@).contains(("hx-trigger"@, t@))
            },
            Route::Post { route: p, trigger, .. } => {
                &&& attributes_view(r@).contains(("hx-post"@, p@))
                &&& trigger matches Some(t) ==> attributes_view(r@).contains(("hx-trigger"@, t@))
            },
        },
{
    proof {
        lemma_route_attributes_name_route_and_trigger(*route);
    }
    let mut attrs: Vec<(String, String)> = Vec::new();
    let (method, path, trigger, swap) = match route {
        Route::Get { route, trigger, swap } => ("hx-get", route, trigger, swap),
        Route::Post { route, trigger, swap } => ("hx-post", route, trigger, swap),
    };
    attrs.push((to_string("hx-swap"), swap_value_of(*swap)));
    if let Route::Post { .. } = route {
        attrs.push((to_string("hx-swap"), to_string("outerHTML")));
    }
    attrs.push((to_string(method), path.clone()));
    match trigger {
        Some(t) => attrs.push((to_string("hx-trigger"), t.clone())),
        None => {},
    }
    assert(attributes_view(attrs@) =~= route_attributes(*route));
    attrs
}

/// Whether some attribute of `attrs` has the name `name`.
pub open spec fn names_attribute(attrs: Seq<(Seq<char>, Seq<char>)>, name: Seq<char>) -> bool {
    exists|i: int| 0 <= i < attrs.len() && (#[trigger] attrs[i]).0 == name
}

/// Every route writes its method with its path (`hx-get` for a GET, `hx-post`
/// for a POST, never the other), and a route with a trigger writes
/// `hx-trigger` with it, whatever its method; a route without one writes no
/// `hx-trigger`.
pub proof fn lemma_route_attributes_name_route_and_trigger(route: Route)
    ensures
        match route {
            Route::Get { route: p, trigger, .. } => {
                &&& route_attributes(route).contains(("hx-get"@, p@))
                &&& !names_attribute(route_attributes(route), "hx-post"@)
                &&& trigger matches Some(t) ==> route_attributes(route).contains(("hx-trigger"@, t@))
                &&& trigger is None ==> !names_attribute(route_attributes(route), "hx-trigger"@)
            },
            Route::Post { route: p, trigger, .. } => {
                &&& route_attributes(route).contains(("hx-post"@, p@))
                &&& !names_attribute(route_attributes(route), "hx-get"@)
                &&& trigger matches Some(t) ==> route_attributes(route).contains(("hx-trigger"@, t@))
                &&& trigger is None ==> !names_attribute(route_attributes(route), "hx-trigger"@)
            },
        },
{
    reveal_strlit("hx-get");
    reveal_strlit("hx-post");
    reveal_strlit("hx-swap");
    reveal_strlit("hx-trigger");
    let a = route_attributes(route);
    assert("hx-swap"@[3] != "hx-post"@[3]);
    assert("hx-get"@.len() != "hx-post"@.len());
    assert("hx-trigger"@.len() != "hx-post"@.len());
    assert("hx-swap"@.len() != "hx-get"@.len());
    assert("hx-trigger"@.len() != "hx-get"@.len());
    assert("hx-post"@.len() != "hx-get"@.len());
    assert("hx-swap"@.len() != "hx-trigger"@.len());
    assert("hx-get"@.len() != "hx-trigger"@.len());
    assert("hx-post"@.len() != "hx-trigger"@.len());
    match route {
        Route::Get { route: p, trigger, .. } => {
            assert(a[1] == ("hx-get"@, p@));
            match trigger {
                Some(t) => {
                    assert(a[2] == ("hx-trigger"@, t@));
                },
                None => {},
            }
        },
        Route::Post { route: p, trigger, .. } => {
            assert(a[2] == ("hx-post"@, p@));
            match trigger {
                Some(t) => {
                    assert(a[3] == ("hx-trigger"@, t@));
                },
                None => {},
            }
        },
    }
}

/// A color, as the renderers write it.
#[derive(Debug, Clone, Copy, PartialEq, Eq, Structural)]
pub struct Rgb {
    pub r: u8,
    pub g: u8,
    pub b: u8,
}

/// The CSS of a page's background: `background:rgb(r,g,b)`, or nothing.
pub open spec fn background_css(background: Option<Rgb>) -> Seq<char> {
    match background {
        Some(c) => "background:rgb("@ + decimal(c.r as nat) + seq![','] + decimal(c.g as nat) + seq![',']
            + decimal(c.b as nat) + seq![')'],
        None => Seq::empty(),
    }
}

/// Appends `background_css(background)`.
fn push_background(out: &mut Vec<char>, background: Option<Rgb>)
    ensures
        final(out)@ == old(out)@ + background_css(background),
{
    match background {
        Some(c) => {
            push_str(out, "background:rgb(");
            push_decimal(out, c.r as u64);
            out.push(',');
            push_decimal(out, c.g as u64);
            out.push(',');
            push_decimal(out, c.b as u64);
            out.push(')');
        },
        None => {},
    }
}

/// The CSS of a page's background: `background:rgb(r,g,b)`, or nothing.
pub fn background_style(background: Option<Rgb>) -> (r: String)
    ensures
        r@ == background_css(background),
{
    let mut out: Vec<char> = Vec::new();
    push_background(&mut out, background);
    string_from_chars(&out)
}

/// The page text before the background's CSS.
pub const PAGE_HEAD: &'static str = "\n                <html>\n                    <head>\n                        <style>\n                            body {\n                                margin: 0;";

/// The page text between the background's CSS and the content.
pub const PAGE_BODY: &'static str = ";\n                                overflow: hidden;\n                            }\n\n                            .remove-button-styles {\n                                background: none;\n                                color: inherit;\n                                border: none;\n                                padding: 0;\n                                font: inherit;\n                                cursor: pointer;\n                                outline: inherit;\n                            }\n                        </style>\n                    </head>\n                    <body>";

/// The page text after the content.
pub const PAGE_TAIL: &'static str = "</body>\n                </html>\n                ";

/// The HTML sent for rendered content: the content alone in answer to an
/// htmx request, else a whole page with the background's CSS and the content.
pub open spec fn root_page(is_htmx_request: bool, content: Seq<char>, background: Option<Rgb>) -> Seq<char> {
    if is_htmx_request {
        content
    } else {
        PAGE_HEAD@ + background_css(background) + PAGE_BODY@ + content + PAGE_TAIL@
    }
}

/// The HTML sent for rendered content.
pub fn root_html(is_htmx_request: bool, content: String, background: Option<Rgb>) -> (r: String)
    ensures
        r@ == root_page(is_htmx_request, content@, background),
{
    if is_htmx_request {
        return content;
    }
    let mut out: Vec<char> = Vec::new();
    push_str(&mut out, PAGE_HEAD);
    push_background(&mut out, background);
    push_str(&mut out, PAGE_BODY);
    push_str(&mut out, content.as_str());
    push_str(&mut out, PAGE_TAIL);
    string_from_chars(&out)
}

/// The HTML of a partial view: its responsive CSS, a blank line, its content.
pub fn partial_html(responsive_css: &str, content: &str) -> (r: String)
    ensures
        r@ == responsive_css@ + "\n\n"@ + content@,
{
    let mut out: Vec<char> = Vec::new();
    push_str(&mut out, responsive_css);
    push_str(&mut out, "\n\n");
    push_str(&mut out, content);
    string_from_chars(&out)
}

} // verus!
