//! The records of the model as JSON objects: for each record the tree that
//! writes it, what a tree is read as, and the two functions that do so.

use vstd::prelude::*;
use vstd::string::*;
use crate::fault::{at, at_optional, decoded, DecodeError, DecodeFault, need, placed};
use crate::json::{Json, JsonTree, lemma_member_views};
use crate::leaves::{
    bool_from_json, bool_of, bool_to_json, bool_tree, color_from_json, color_of, color_to_json,
    color_tree, optional_color_from_json, optional_color_of, optional_color_to_json,
    optional_color_tree, scalar_from_json, scalar_of, scalar_to_json, scalar_tree,
    wrap_mode_from_json, wrap_mode_of, wrap_mode_to_json, wrap_mode_tree,
};
use crate::model::{
    Interaction, InteractionView, Margin, MarginView, Rounding, RoundingView, ScrollStyle,
    ScrollStyleView, Selection, SelectionView, Shadow, ShadowView, Spacing, SpacingView, Stroke,
    StrokeView, StyleModel, StyleModelView, TextCursor, TextCursorView, Vector2, Vector2View,
    Visuals, VisualsView, Widgets, WidgetsView, WidgetVisuals, WidgetVisualsView,
};

verus! {

/// The tree that writes a vector: an object with one member for each field, in
/// the order of the fields.
#[verifier::opaque]
pub open spec fn vector2_tree(value: Vector2View) -> JsonTree {
    JsonTree::Object(
        seq![
            ("x"@, scalar_tree(value.x)),
            ("y"@, scalar_tree(value.y)),
        ],
    )
}

/// A vector as a tree writes it. The tree has to be an object with every member
/// of the model, each of the right shape; only a member that may be `null` may
/// also be left out. Members that the model does not know are passed over. The
/// first member that fails, in the order of the fields, gives the fault.
#[verifier::opaque]
pub open spec fn vector2_of(tree: JsonTree) -> Result<Vector2View, DecodeFault> {
    let x = at(tree, "x"@, |t: JsonTree| scalar_of(t));
    let y = at(tree, "y"@, |t: JsonTree| scalar_of(t));
    if !(tree is Object) {
        Err(DecodeFault::mismatch())
    } else if x is Err {
        Err(x->Err_0)
    } else if y is Err {
        Err(y->Err_0)
    } else {
        Ok(
            Vector2View {
                x: x->Ok_0,
                y: y->Ok_0,
            },
        )
    }
}

/// Writes a vector as a tree. The value is valid, as every value of the model
/// is.
pub fn vector2_to_json(value: &Vector2) -> (json: Json)
    ensures
        json@ == vector2_tree(value@),
        value@.valid(),
{
    let members = vec![
        (String::from_str("x"), scalar_to_json(&value.x)),
        (String::from_str("y"), scalar_to_json(&value.y)),
    ];
    proof {
        reveal(vector2_tree);
        lemma_member_views(members@);
    }
    let json = Json::Object(members);
    assert(json@->Object_0 =~= vector2_tree(value@)->Object_0);
    json
}

/// Reads a vector from a tree.
pub fn vector2_from_json(json: &Json) -> (r: Result<Vector2, DecodeError>)
    ensures
        decoded(r) == vector2_of(json@),
{
    proof {
        reveal(vector2_of);
    }
    if !json.is_object() {
        return Err(DecodeError::mismatch());
    }
    let x = placed(scalar_from_json(need(json, "x")?), "x")?;
    let y = placed(scalar_from_json(need(json, "y")?), "y")?;
    Ok(Vector2 { x, y })
}

/// The tree that writes a margin: an object with one member for each field, in
/// the order of the fields.
#[verifier::opaque]
pub open spec fn margin_tree(value: MarginView) -> JsonTree {
    JsonTree::Object(
        seq![
            ("left"@, scalar_tree(value.left)),
            ("right"@, scalar_tree(value.right)),
            ("top"@, scalar_tree(value.top)),
            ("bottom"@, scalar_tree(value.bottom)),
        ],
    )
}

/// A margin as a tree writes it. The tree has to be an object with every member
/// of the model, each of the right shape; only a member that may be `null` may
/// also be left out. Members that the model does not know are passed over. The
/// first member that fails, in the order of the fields, gives the fault.
#[verifier::opaque]
pub open spec fn margin_of(tree: JsonTree) -> Result<MarginView, DecodeFault> {
    let left = at(tree, "left"@, |t: JsonTree| scalar_of(t));
    let right = at(tree, "right"@, |t: JsonTree| scalar_of(t));
    let top = at(tree, "top"@, |t: JsonTree| scalar_of(t));
    let bottom = at(tree, "bottom"@, |t: JsonTree| scalar_of(t));
    if !(tree is Object) {
        Err(DecodeFault::mismatch())
    } else if left is Err {
        Err(left->Err_0)
    } else if right is Err {
        Err(right->Err_0)
    } else if top is Err {
        Err(top->Err_0)
    } else if bottom is Err {
        Err(bottom->Err_0)
    } else {
        Ok(
            MarginView {
                left: left->Ok_0,
                right: right->Ok_0,
                top: top->Ok_0,
                bottom: bottom->Ok_0,
            },
        )
    }
}

/// Writes a margin as a tree. The value is valid, as every value of the model
/// is.
pub fn margin_to_json(value: &Margin) -> (json: Json)
    ensures
        json@ == margin_tree(value@),
        value@.valid(),
{
    let members = vec![
        (String::from_str("left"), scalar_to_json(&value.left)),
        (String::from_str("right"), scalar_to_json(&value.right)),
        (String::from_str("top"), scalar_to_json(&value.top)),
        (String::from_str("bottom"), scalar_to_json(&value.bottom)),
    ];
    proof {
        reveal(margin_tree);
        lemma_member_views(members@);
    }
    let json = Json::Object(members);
    assert(json@->Object_0 =~= margin_tree(value@)->Object_0);
    json
}

/// Reads a margin from a tree.
pub fn margin_from_json(json: &Json) -> (r: Result<Margin, DecodeError>)
    ensures
        decoded(r) == margin_of(json@),
{
    proof {
        reveal(margin_of);
    }
    if !json.is_object() {
        return Err(DecodeError::mismatch());
    }
    let left = placed(scalar_from_json(need(json, "left")?), "left")?;
    let right = placed(scalar_from_json(need(json, "right")?), "right")?;
    let top = placed(scalar_from_json(need(json, "top")?), "top")?;
    let bottom = placed(scalar_from_json(need(json, "bottom")?), "bottom")?;
    Ok(Margin { left, right, top, bottom })
}

/// The tree that writes a rounding: an object with one member for each field,
/// in the order of the fields.
#[verifier::opaque]
pub open spec fn rounding_tree(value: RoundingView) -> JsonTree {
    JsonTree::Object(
        seq![
            ("nw"@, scalar_tree(value.nw)),
            ("ne"@, scalar_tree(value.ne)),
            ("sw"@, scalar_tree(value.sw)),
            ("se"@, scalar_tree(value.se)),
        ],
    )
}

/// A rounding as a tree writes it. The tree has to be an object with every
/// member of the model, each of the right shape; only a member that may be
/// `null` may also be left out. Members that the model does not know are passed
/// over. The first member that fails, in the order of the fields, gives the
/// fault.
#[verifier::opaque]
pub open spec fn rounding_of(tree: JsonTree) -> Result<RoundingView, DecodeFault> {
    let nw = at(tree, "nw"@, |t: JsonTree| scalar_of(t));
    let ne = at(tree, "ne"@, |t: JsonTree| scalar_of(t));
    let sw = at(tree, "sw"@, |t: JsonTree| scalar_of(t));
    let se = at(tree, "se"@, |t: JsonTree| scalar_of(t));
    if !(tree is Object) {
        Err(DecodeFault::mismatch())
    } else if nw is Err {
        Err(nw->Err_0)
    } else if ne is Err {
        Err(ne->Err_0)
    } else if sw is Err {
        Err(sw->Err_0)
    } else if se is Err {
        Err(se->Err_0)
    } else {
        Ok(
            RoundingView {
                nw: nw->Ok_0,
                ne: ne->Ok_0,
                sw: sw->Ok_0,
                se: se->Ok_0,
            },
        )
    }
}

/// Writes a rounding as a tree. The value is valid, as every value of the model
/// is.
pub fn rounding_to_json(value: &Rounding) -> (json: Json)
    ensures
        json@ == rounding_tree(value@),
        value@.valid(),
{
    let members = vec![
        (String::from_str("nw"), scalar_to_json(&value.nw)),
        (String::from_str("ne"), scalar_to_json(&value.ne)),
        (String::from_str("sw"), scalar_to_json(&value.sw)),
        (String::from_str("se"), scalar_to_json(&value.se)),
    ];
    proof {
        reveal(rounding_tree);
        lemma_member_views(members@);
    }
    let json = Json::Object(members);
    assert(json@->Object_0 =~= rounding_tree(value@)->Object_0);
    json
}

/// Reads a rounding from a tree.
pub fn rounding_from_json(json: &Json) -> (r: Result<Rounding, DecodeError>)
    ensures
        decoded(r) == rounding_of(json@),
{
    proof {
        reveal(rounding_of);
    }
    if !json.is_object() {
        return Err(DecodeError::mismatch());
    }
    let nw = placed(scalar_from_json(need(json, "nw")?), "nw")?;
    let ne = placed(scalar_from_json(need(json, "ne")?), "ne")?;
    let sw = placed(scalar_from_json(need(json, "sw")?), "sw")?;
    let se = placed(scalar_from_json(need(json, "se")?), "se")?;
    Ok(Rounding { nw, ne, sw, se })
}

/// The tree that writes a stroke: an object with one member for each field, in
/// the order of the fields.
#[verifier::opaque]
pub open spec fn stroke_tree(value: StrokeView) -> JsonTree {
    JsonTree::Object(
        seq![
            ("width"@, scalar_tree(value.width)),
            ("color"@, color_tree(value.color)),
        ],
    )
}

/// A stroke as a tree writes it. The tree has to be an object with every member
/// of the model, each of the right shape; only a member that may be `null` may
/// also be left out. Members that the model does not know are passed over. The
/// first member that fails, in the order of the fields, gives the fault.
#[verifier::opaque]
pub open spec fn stroke_of(tree: JsonTree) -> Result<StrokeView, DecodeFault> {
    let width = at(tree, "width"@, |t: JsonTree| scalar_of(t));
    let color = at(tree, "color"@, |t: JsonTree| color_of(t));
    if !(tree is Object) {
        Err(DecodeFault::mismatch())
    } else if width is Err {
        Err(width->Err_0)
    } else if color is Err {
        Err(color->Err_0)
    } else {
        Ok(
            StrokeView {
                width: width->Ok_0,
                color: color->Ok_0,
            },
        )
    }
}

/// Writes a stroke as a tree. The value is valid, as every value of the model
/// is.
pub fn stroke_to_json(value: &Stroke) -> (json: Json)
    ensures
        json@ == stroke_tree(value@),
        value@.valid(),
{
    let members = vec![
        (String::from_str("width"), scalar_to_json(&value.width)),
        (String::from_str("color"), color_to_json(value.color)),
    ];
    proof {
        reveal(stroke_tree);
        lemma_member_views(members@);
    }
    let json = Json::Object(members);
    assert(json@->Object_0 =~= stroke_tree(value@)->Object_0);
    json
}

/// Reads a stroke from a tree.
pub fn stroke_from_json(json: &Json) -> (r: Result<Stroke, DecodeError>)
    ensures
        decoded(r) == stroke_of(json@),
{
    proof {
        reveal(stroke_of);
    }
    if !json.is_object() {
        return Err(DecodeError::mismatch());
    }
    let width = placed(scalar_from_json(need(json, "width")?), "width")?;
    let color = placed(color_from_json(need(json, "color")?), "color")?;
    Ok(Stroke { width, color })
}

/// The tree that writes a shadow: an object with one member for each field, in
/// the order of the fields.
#[verifier::opaque]
pub open spec fn shadow_tree(value: ShadowView) -> JsonTree {
    JsonTree::Object(
        seq![
            ("offset"@, vector2_tree(value.offset)),
            ("blur"@, scalar_tree(value.blur)),
            ("spread"@, scalar_tree(value.spread)),
            ("color"@, color_tree(value.color)),
        ],
    )
}

/// A shadow as a tree writes it. The tree has to be an object with every member
/// of the model, each of the right shape; only a member that may be `null` may
/// also be left out. Members that the model does not know are passed over. The
/// first member that fails, in the order of the fields, gives the fault.
#[verifier::opaque]
pub open spec fn shadow_of(tree: JsonTree) -> Result<ShadowView, DecodeFault> {
    let offset = at(tree, "offset"@, |t: JsonTree| vector2_of(t));
    let blur = at(tree, "blur"@, |t: JsonTree| scalar_of(t));
    let spread = at(tree, "spread"@, |t: JsonTree| scalar_of(t));
    let color = at(tree, "color"@, |t: JsonTree| color_of(t));
    if !(tree is Object) {
        Err(DecodeFault::mismatch())
    } else if offset is Err {
        Err(offset->Err_0)
    } else if blur is Err {
        Err(blur->Err_0)
    } else if spread is Err {
        Err(spread->Err_0)
    } else if color is Err {
        Err(color->Err_0)
    } else {
        Ok(
            ShadowView {
                offset: offset->Ok_0,
                blur: blur->Ok_0,
                spread: spread->Ok_0,
                color: color->Ok_0,
            },
        )
    }
}

/// Writes a shadow as a tree. The value is valid, as every value of the model
/// is.
pub fn shadow_to_json(value: &Shadow) -> (json: Json)
    ensures
        json@ == shadow_tree(value@),
        value@.valid(),
{
    let members = vec![
        (String::from_str("offset"), vector2_to_json(&value.offset)),
        (String::from_str("blur"), scalar_to_json(&value.blur)),
        (String::from_str("spread"), scalar_to_json(&value.spread)),
        (String::from_str("color"), color_to_json(value.color)),
    ];
    proof {
        reveal(shadow_tree);
        lemma_member_views(members@);
    }
    let json = Json::Object(members);
    assert(json@->Object_0 =~= shadow_tree(value@)->Object_0);
    json
}

/// Reads a shadow from a tree.
pub fn shadow_from_json(json: &Json) -> (r: Result<Shadow, DecodeError>)
    ensures
        decoded(r) == shadow_of(json@),
{
    proof {
        reveal(shadow_of);
    }
    if !json.is_object() {
        return Err(DecodeError::mismatch());
    }
    let offset = placed(vector2_from_json(need(json, "offset")?), "offset")?;
    let blur = placed(scalar_from_json(need(json, "blur")?), "blur")?;
    let spread = placed(scalar_from_json(need(json, "spread")?), "spread")?;
    let color = placed(color_from_json(need(json, "color")?), "color")?;
    Ok(Shadow { offset, blur, spread, color })
}

/// The tree that writes the look of a widget: an object with one member for
/// each field, in the order of the fields.
#[verifier::opaque]
pub open spec fn widget_visuals_tree(value: WidgetVisualsView) -> JsonTree {
    JsonTree::Object(
        seq![
            ("bg_fill"@, color_tree(value.bg_fill)),
            ("weak_bg_fill"@, color_tree(value.weak_bg_fill)),
            ("bg_stroke"@, stroke_tree(value.bg_stroke)),
            ("rounding"@, rounding_tree(value.rounding)),
            ("fg_stroke"@, stroke_tree(value.fg_stroke)),
            ("expansion"@, scalar_tree(value.expansion)),
        ],
    )
}

/// The look of a widget as a tree writes it. The tree has to be an object with
/// every member of the model, each of the right shape; only a member that may
/// be `null` may also be left out. Members that the model does not know are
/// passed over. The first member that fails, in the order of the fields, gives
/// the fault.
#[verifier::opaque]
pub open spec fn widget_visuals_of(tree: JsonTree) -> Result<WidgetVisualsView, DecodeFault> {
    let bg_fill = at(tree, "bg_fill"@, |t: JsonTree| color_of(t));
    let weak_bg_fill = at(tree, "weak_bg_fill"@, |t: JsonTree| color_of(t));
    let bg_stroke = at(tree, "bg_stroke"@, |t: JsonTree| stroke_of(t));
    let rounding = at(tree, "rounding"@, |t: JsonTree| rounding_of(t));
    let fg_stroke = at(tree, "fg_stroke"@, |t: JsonTree| stroke_of(t));
    let expansion = at(tree, "expansion"@, |t: JsonTree| scalar_of(t));
    if !(tree is Object) {
        Err(DecodeFault::mismatch())
    } else if bg_fill is Err {
        Err(bg_fill->Err_0)
    } else if weak_bg_fill is Err {
        Err(weak_bg_fill->Err_0)
    } else if bg_stroke is Err {
        Err(bg_stroke->Err_0)
    } else if rounding is Err {
        Err(rounding->Err_0)
    } else if fg_stroke is Err {
        Err(fg_stroke->Err_0)
    } else if expansion is Err {
        Err(expansion->Err_0)
    } else {
        Ok(
            WidgetVisualsView {
                bg_fill: bg_fill->Ok_0,
                weak_bg_fill: weak_bg_fill->Ok_0,
                bg_stroke: bg_stroke->Ok_0,
                rounding: rounding->Ok_0,
                fg_stroke: fg_stroke->Ok_0,
                expansion: expansion->Ok_0,
            },
        )
    }
}

/// Writes the look of a widget as a tree. The value is valid, as every value of
/// the model is.
pub fn widget_visuals_to_json(value: &WidgetVisuals) -> (json: Json)
    ensures
        json@ == widget_visuals_tree(value@),
        value@.valid(),
{
    let members = vec![
        (String::from_str("bg_fill"), color_to_json(value.bg_fill)),
        (String::from_str("weak_bg_fill"), color_to_json(value.weak_bg_fill)),
        (String::from_str("bg_stroke"), stroke_to_json(&value.bg_stroke)),
        (String::from_str("rounding"), rounding_to_json(&value.rounding)),
        (String::from_str("fg_stroke"), stroke_to_json(&value.fg_stroke)),
        (String::from_str("expansion"), scalar_to_json(&value.expansion)),
    ];
    proof {
        reveal(widget_visuals_tree);
        lemma_member_views(members@);
    }
    let json = Json::Object(members);
    assert(json@->Object_0 =~= widget_visuals_tree(value@)->Object_0);
    json
}

/// Reads the look of a widget from a tree.
pub fn widget_visuals_from_json(json: &Json) -> (r: Result<WidgetVisuals, DecodeError>)
    ensures
        decoded(r) == widget_visuals_of(json@),
{
    proof {
        reveal(widget_visuals_of);
    }
    if !json.is_object() {
        return Err(DecodeError::mismatch());
    }
    let bg_fill = placed(color_from_json(need(json, "bg_fill")?), "bg_fill")?;
    let weak_bg_fill = placed(color_from_json(need(json, "weak_bg_fill")?), "weak_bg_fill")?;
    let bg_stroke = placed(stroke_from_json(need(json, "bg_stroke")?), "bg_stroke")?;
    let rounding = placed(rounding_from_json(need(json, "rounding")?), "rounding")?;
    let fg_stroke = placed(stroke_from_json(need(json, "fg_stroke")?), "fg_stroke")?;
    let expansion = placed(scalar_from_json(need(json, "expansion")?), "expansion")?;
    Ok(WidgetVisuals { bg_fill, weak_bg_fill, bg_stroke, rounding, fg_stroke, expansion })
}

/// The tree that writes the looks of the widget states: an object with one
/// member for each field, in the order of the fields.
#[verifier::opaque]
pub open spec fn widgets_tree(value: WidgetsView) -> JsonTree {
    JsonTree::Object(
        seq![
            ("noninteractive"@, widget_visuals_tree(value.noninteractive)),
            ("inactive"@, widget_visuals_tree(value.inactive)),
            ("hovered"@, widget_visuals_tree(value.hovered)),
            ("active"@, widget_visuals_tree(value.active)),
            ("open"@, widget_visuals_tree(value.open)),
        ],
    )
}

/// The looks of the widget states as a tree writes it. The tree has to be an
/// object with every member of the model, each of the right shape; only a
/// member that may be `null` may also be left out. Members that the model does
/// not know are passed over. The first member that fails, in the order of the
/// fields, gives the fault.
#[verifier::opaque]
pub open spec fn widgets_of(tree: JsonTree) -> Result<WidgetsView, DecodeFault> {
    let noninteractive = at(tree, "noninteractive"@, |t: JsonTree| widget_visuals_of(t));
    let inactive = at(tree, "inactive"@, |t: JsonTree| widget_visuals_of(t));
    let hovered = at(tree, "hovered"@, |t: JsonTree| widget_visuals_of(t));
    let active = at(tree, "active"@, |t: JsonTree| widget_visuals_of(t));
    let open = at(tree, "open"@, |t: JsonTree| widget_visuals_of(t));
    if !(tree is Object) {
        Err(DecodeFault::mismatch())
    } else if noninteractive is Err {
        Err(noninteractive->Err_0)
    } else if inactive is Err {
        Err(inactive->Err_0)
    } else if hovered is Err {
        Err(hovered->Err_0)
    } else if active is Err {
        Err(active->Err_0)
    } else if open is Err {
        Err(open->Err_0)
    } else {
        Ok(
            WidgetsView {
                noninteractive: noninteractive->Ok_0,
                inactive: inactive->Ok_0,
                hovered: hovered->Ok_0,
                active: active->Ok_0,
                open: open->Ok_0,
            },
        )
    }
}

/// Writes the looks of the widget states as a tree. The value is valid, as
/// every value of the model is.
pub fn widgets_to_json(value: &Widgets) -> (json: Json)
    ensures
        json@ == widgets_tree(value@),
        value@.valid(),
{
    let members = vec![
        (String::from_str("noninteractive"), widget_visuals_to_json(&value.noninteractive)),
        (String::from_str("inactive"), widget_visuals_to_json(&value.inactive)),
        (String::from_str("hovered"), widget_visuals_to_json(&value.hovered)),
        (String::from_str("active"), widget_visuals_to_json(&value.active)),
        (String::from_str("open"), widget_visuals_to_json(&value.open)),
    ];
    proof {
        reveal(widgets_tree);
        lemma_member_views(members@);
    }
    let json = Json::Object(members);
    assert(json@->Object_0 =~= widgets_tree(value@)->Object_0);
    json
}

/// Reads the looks of the widget states from a tree.
pub fn widgets_from_json(json: &Json) -> (r: Result<Widgets, DecodeError>)
    ensures
        decoded(r) == widgets_of(json@),
{
    proof {
        reveal(widgets_of);
    }
    if !json.is_object() {
        return Err(DecodeError::mismatch());
    }
    let noninteractive = placed(
        widget_visuals_from_json(need(json, "noninteractive")?),
        "noninteractive",
    )?;
    let inactive = placed(widget_visuals_from_json(need(json, "inactive")?), "inactive")?;
    let hovered = placed(widget_visuals_from_json(need(json, "hovered")?), "hovered")?;
    let active = placed(widget_visuals_from_json(need(json, "active")?), "active")?;
    let open = placed(widget_visuals_from_json(need(json, "open")?), "open")?;
    Ok(Widgets { noninteractive, inactive, hovered, active, open })
}

/// The tree that writes the look of a selection: an object with one member for
/// each field, in the order of the fields.
#[verifier::opaque]
pub open spec fn selection_tree(value: SelectionView) -> JsonTree {
    JsonTree::Object(
        seq![
            ("bg_fill"@, color_tree(value.bg_fill)),
            ("stroke"@, stroke_tree(value.stroke)),
        ],
    )
}

/// The look of a selection as a tree writes it. The tree has to be an object
/// with every member of the model, each of the right shape; only a member that
/// may be `null` may also be left out. Members that the model does not know are
/// passed over. The first member that fails, in the order of the fields, gives
/// the fault.
#[verifier::opaque]
pub open spec fn selection_of(tree: JsonTree) -> Result<SelectionView, DecodeFault> {
    let bg_fill = at(tree, "bg_fill"@, |t: JsonTree| color_of(t));
    let stroke = at(tree, "stroke"@, |t: JsonTree| stroke_of(t));
    if !(tree is Object) {
        Err(DecodeFault::mismatch())
    } else if bg_fill is Err {
        Err(bg_fill->Err_0)
    } else if stroke is Err {
        Err(stroke->Err_0)
    } else {
        Ok(
            SelectionView {
                bg_fill: bg_fill->Ok_0,
                stroke: stroke->Ok_0,
            },
        )
    }
}

/// Writes the look of a selection as a tree. The value is valid, as every value
/// of the model is.
pub fn selection_to_json(value: &Selection) -> (json: Json)
    ensures
        json@ == selection_tree(value@),
        value@.valid(),
{
    let members = vec![
        (String::from_str("bg_fill"), color_to_json(value.bg_fill)),
        (String::from_str("stroke"), stroke_to_json(&value.stroke)),
    ];
    proof {
        reveal(selection_tree);
        lemma_member_views(members@);
    }
    let json = Json::Object(members);
    assert(json@->Object_0 =~= selection_tree(value@)->Object_0);
    json
}

/// Reads the look of a selection from a tree.
pub fn selection_from_json(json: &Json) -> (r: Result<Selection, DecodeError>)
    ensures
        decoded(r) == selection_of(json@),
{
    proof {
        reveal(selection_of);
    }
    if !json.is_object() {
        return Err(DecodeError::mismatch());
    }
    let bg_fill = placed(color_from_json(need(json, "bg_fill")?), "bg_fill")?;
    let stroke = placed(stroke_from_json(need(json, "stroke")?), "stroke")?;
    Ok(Selection { bg_fill, stroke })
}

/// The tree that writes the look of the text cursor: an object with one member
/// for each field, in the order of the fields.
#[verifier::opaque]
pub open spec fn text_cursor_tree(value: TextCursorView) -> JsonTree {
    JsonTree::Object(
        seq![
            ("stroke"@, stroke_tree(value.stroke)),
            ("preview"@, bool_tree(value.preview)),
        ],
    )
}

/// The look of the text cursor as a tree writes it. The tree has to be an
/// object with every member of the model, each of the right shape; only a
/// member that may be `null` may also be left out. Members that the model does
/// not know are passed over. The first member that fails, in the order of the
/// fields, gives the fault.
#[verifier::opaque]
pub open spec fn text_cursor_of(tree: JsonTree) -> Result<TextCursorView, DecodeFault> {
    let stroke = at(tree, "stroke"@, |t: JsonTree| stroke_of(t));
    let preview = at(tree, "preview"@, |t: JsonTree| bool_of(t));
    if !(tree is Object) {
        Err(DecodeFault::mismatch())
    } else if stroke is Err {
        Err(stroke->Err_0)
    } else if preview is Err {
        Err(preview->Err_0)
    } else {
        Ok(
            TextCursorView {
                stroke: stroke->Ok_0,
                preview: preview->Ok_0,
            },
        )
    }
}

/// Writes the look of the text cursor as a tree. The value is valid, as every
/// value of the model is.
pub fn text_cursor_to_json(value: &TextCursor) -> (json: Json)
    ensures
        json@ == text_cursor_tree(value@),
        value@.valid(),
{
    let members = vec![
        (String::from_str("stroke"), stroke_to_json(&value.stroke)),
        (String::from_str("preview"), bool_to_json(value.preview)),
    ];
    proof {
        reveal(text_cursor_tree);
        lemma_member_views(members@);
    }
    let json = Json::Object(members);
    assert(json@->Object_0 =~= text_cursor_tree(value@)->Object_0);
    json
}

/// Reads the look of the text cursor from a tree.
pub fn text_cursor_from_json(json: &Json) -> (r: Result<TextCursor, DecodeError>)
    ensures
        decoded(r) == text_cursor_of(json@),
{
    proof {
        reveal(text_cursor_of);
    }
    if !json.is_object() {
        return Err(DecodeError::mismatch());
    }
    let stroke = placed(stroke_from_json(need(json, "stroke")?), "stroke")?;
    let preview = placed(bool_from_json(need(json, "preview")?), "preview")?;
    Ok(TextCursor { stroke, preview })
}

/// The tree that writes the measures of scroll bars: an object with one member
/// for each field, in the order of the fields.
#[verifier::opaque]
pub open spec fn scroll_style_tree(value: ScrollStyleView) -> JsonTree {
    JsonTree::Object(
        seq![
            ("bar_width"@, scalar_tree(value.bar_width)),
            ("handle_min_length"@, scalar_tree(value.handle_min_length)),
            ("bar_inner_margin"@, scalar_tree(value.bar_inner_margin)),
            ("bar_outer_margin"@, scalar_tree(value.bar_outer_margin)),
        ],
    )
}

/// The measures of scroll bars as a tree writes it. The tree has to be an
/// object with every member of the model, each of the right shape; only a
/// member that may be `null` may also be left out. Members that the model does
/// not know are passed over. The first member that fails, in the order of the
/// fields, gives the fault.
#[verifier::opaque]
pub open spec fn scroll_style_of(tree: JsonTree) -> Result<ScrollStyleView, DecodeFault> {
    let bar_width = at(tree, "bar_width"@, |t: JsonTree| scalar_of(t));
    let handle_min_length = at(tree, "handle_min_length"@, |t: JsonTree| scalar_of(t));
    let bar_inner_margin = at(tree, "bar_inner_margin"@, |t: JsonTree| scalar_of(t));
    let bar_outer_margin = at(tree, "bar_outer_margin"@, |t: JsonTree| scalar_of(t));
    if !(tree is Object) {
        Err(DecodeFault::mismatch())
    } else if bar_width is Err {
        Err(bar_width->Err_0)
    } else if handle_min_length is Err {
        Err(handle_min_length->Err_0)
    } else if bar_inner_margin is Err {
        Err(bar_inner_margin->Err_0)
    } else if bar_outer_margin is Err {
        Err(bar_outer_margin->Err_0)
    } else {
        Ok(
            ScrollStyleView {
                bar_width: bar_width->Ok_0,
                handle_min_length: handle_min_length->Ok_0,
                bar_inner_margin: bar_inner_margin->Ok_0,
                bar_outer_margin: bar_outer_margin->Ok_0,
            },
        )
    }
}

/// Writes the measures of scroll bars as a tree. The value is valid, as every
/// value of the model is.
pub fn scroll_style_to_json(value: &ScrollStyle) -> (json: Json)
    ensures
        json@ == scroll_style_tree(value@),
        value@.valid(),
{
    let members = vec![
        (String::from_str("bar_width"), scalar_to_json(&value.bar_width)),
        (String::from_str("handle_min_length"), scalar_to_json(&value.handle_min_length)),
        (String::from_str("bar_inner_margin"), scalar_to_json(&value.bar_inner_margin)),
        (String::from_str("bar_outer_margin"), scalar_to_json(&value.bar_outer_margin)),
    ];
    proof {
        reveal(scroll_style_tree);
        lemma_member_views(members@);
    }
    let json = Json::Object(members);
    assert(json@->Object_0 =~= scroll_style_tree(value@)->Object_0);
    json
}

/// Reads the measures of scroll bars from a tree.
pub fn scroll_style_from_json(json: &Json) -> (r: Result<ScrollStyle, DecodeError>)
    ensures
        decoded(r) == scroll_style_of(json@),
{
    proof {
        reveal(scroll_style_of);
    }
    if !json.is_object() {
        return Err(DecodeError::mismatch());
    }
    let bar_width = placed(scalar_from_json(need(json, "bar_width")?), "bar_width")?;
    let handle_min_length = placed(
        scalar_from_json(need(json, "handle_min_length")?),
        "handle_min_length",
    )?;
    let bar_inner_margin = placed(
        scalar_from_json(need(json, "bar_inner_margin")?),
        "bar_inner_margin",
    )?;
    let bar_outer_margin = placed(
        scalar_from_json(need(json, "bar_outer_margin")?),
        "bar_outer_margin",
    )?;
    Ok(ScrollStyle { bar_width, handle_min_length, bar_inner_margin, bar_outer_margin })
}

/// The tree that writes the spacing: an object with one member for each field,
/// in the order of the fields.
#[verifier::opaque]
pub open spec fn spacing_tree(value: SpacingView) -> JsonTree {
    JsonTree::Object(
        seq![
            ("item_spacing"@, vector2_tree(value.item_spacing)),
            ("window_margin"@, margin_tree(value.window_margin)),
            ("button_padding"@, vector2_tree(value.button_padding)),
            ("menu_margin"@, margin_tree(value.menu_margin)),
            ("indent"@, scalar_tree(value.indent)),
            ("interact_size"@, vector2_tree(value.interact_size)),
            ("slider_width"@, scalar_tree(value.slider_width)),
            ("combo_width"@, scalar_tree(value.combo_width)),
            ("text_edit_width"@, scalar_tree(value.text_edit_width)),
            ("icon_width"@, scalar_tree(value.icon_width)),
            ("icon_width_inner"@, scalar_tree(value.icon_width_inner)),
            ("icon_spacing"@, scalar_tree(value.icon_spacing)),
            ("tooltip_width"@, scalar_tree(value.tooltip_width)),
            (
                "indent_ends_with_horizontal_line"@,
                bool_tree(value.indent_ends_with_horizontal_line),
            ),
            ("combo_height"@, scalar_tree(value.combo_height)),
            ("scroll"@, scroll_style_tree(value.scroll)),
        ],
    )
}

/// The spacing as a tree writes it. The tree has to be an object with every
/// member of the model, each of the right shape; only a member that may be
/// `null` may also be left out. Members that the model does not know are passed
/// over. The first member that fails, in the order of the fields, gives the
/// fault.
#[verifier::opaque]
pub open spec fn spacing_of(tree: JsonTree) -> Result<SpacingView, DecodeFault> {
    let item_spacing = at(tree, "item_spacing"@, |t: JsonTree| vector2_of(t));
    let window_margin = at(tree, "window_margin"@, |t: JsonTree| margin_of(t));
    let button_padding = at(tree, "button_padding"@, |t: JsonTree| vector2_of(t));
    let menu_margin = at(tree, "menu_margin"@, |t: JsonTree| margin_of(t));
    let indent = at(tree, "indent"@, |t: JsonTree| scalar_of(t));
    let interact_size = at(tree, "interact_size"@, |t: JsonTree| vector2_of(t));
    let slider_width = at(tree, "slider_width"@, |t: JsonTree| scalar_of(t));
    let combo_width = at(tree, "combo_width"@, |t: JsonTree| scalar_of(t));
    let text_edit_width = at(tree, "text_edit_width"@, |t: JsonTree| scalar_of(t));
    let icon_width = at(tree, "icon_width"@, |t: JsonTree| scalar_of(t));
    let icon_width_inner = at(tree, "icon_width_inner"@, |t: JsonTree| scalar_of(t));
    let icon_spacing = at(tree, "icon_spacing"@, |t: JsonTree| scalar_of(t));
    let tooltip_width = at(tree, "tooltip_width"@, |t: JsonTree| scalar_of(t));
    let indent_ends_with_horizontal_line = at(
        tree,
        "indent_ends_with_horizontal_line"@,
        |t: JsonTree| bool_of(t),
    );
    let combo_height = at(tree, "combo_height"@, |t: JsonTree| scalar_of(t));
    let scroll = at(tree, "scroll"@, |t: JsonTree| scroll_style_of(t));
    if !(tree is Object) {
        Err(DecodeFault::mismatch())
    } else if item_spacing is Err {
        Err(item_spacing->Err_0)
    } else if window_margin is Err {
        Err(window_margin->Err_0)
    } else if button_padding is Err {
        Err(button_padding->Err_0)
    } else if menu_margin is Err {
        Err(menu_margin->Err_0)
    } else if indent is Err {
        Err(indent->Err_0)
    } else if interact_size is Err {
        Err(interact_size->Err_0)
    } else if slider_width is Err {
        Err(slider_width->Err_0)
    } else if combo_width is Err {
        Err(combo_width->Err_0)
    } else if text_edit_width is Err {
        Err(text_edit_width->Err_0)
    } else if icon_width is Err {
        Err(icon_width->Err_0)
    } else if icon_width_inner is Err {
        Err(icon_width_inner->Err_0)
    } else if icon_spacing is Err {
        Err(icon_spacing->Err_0)
    } else if tooltip_width is Err {
        Err(tooltip_width->Err_0)
    } else if indent_ends_with_horizontal_line is Err {
        Err(indent_ends_with_horizontal_line->Err_0)
    } else if combo_height is Err {
        Err(combo_height->Err_0)
    } else if scroll is Err {
        Err(scroll->Err_0)
    } else {
        Ok(
            SpacingView {
                item_spacing: item_spacing->Ok_0,
                window_margin: window_margin->Ok_0,
                button_padding: button_padding->Ok_0,
                menu_margin: menu_margin->Ok_0,
                indent: indent->Ok_0,
                interact_size: interact_size->Ok_0,
                slider_width: slider_width->Ok_0,
                combo_width: combo_width->Ok_0,
                text_edit_width: text_edit_width->Ok_0,
                icon_width: icon_width->Ok_0,
                icon_width_inner: icon_width_inner->Ok_0,
                icon_spacing: icon_spacing->Ok_0,
                tooltip_width: tooltip_width->Ok_0,
                indent_ends_with_horizontal_line: indent_ends_with_horizontal_line->Ok_0,
                combo_height: combo_height->Ok_0,
                scroll: scroll->Ok_0,
            },
        )
    }
}

/// Writes the spacing as a tree. The value is valid, as every value of the
/// model is.
pub fn spacing_to_json(value: &Spacing) -> (json: Json)
    ensures
        json@ == spacing_tree(value@),
        value@.valid(),
{
    let members = vec![
        (String::from_str("item_spacing"), vector2_to_json(&value.item_spacing)),
        (String::from_str("window_margin"), margin_to_json(&value.window_margin)),
        (String::from_str("button_padding"), vector2_to_json(&value.button_padding)),
        (String::from_str("menu_margin"), margin_to_json(&value.menu_margin)),
        (String::from_str("indent"), scalar_to_json(&value.indent)),
        (String::from_str("interact_size"), vector2_to_json(&value.interact_size)),
        (String::from_str("slider_width"), scalar_to_json(&value.slider_width)),
        (String::from_str("combo_width"), scalar_to_json(&value.combo_width)),
        (String::from_str("text_edit_width"), scalar_to_json(&value.text_edit_width)),
        (String::from_str("icon_width"), scalar_to_json(&value.icon_width)),
        (String::from_str("icon_width_inner"), scalar_to_json(&value.icon_width_inner)),
        (String::from_str("icon_spacing"), scalar_to_json(&value.icon_spacing)),
        (String::from_str("tooltip_width"), scalar_to_json(&value.tooltip_width)),
        (
            String::from_str("indent_ends_with_horizontal_line"),
            bool_to_json(value.indent_ends_with_horizontal_line),
        ),
        (String::from_str("combo_height"), scalar_to_json(&value.combo_height)),
        (String::from_str("scroll"), scroll_style_to_json(&value.scroll)),
    ];
    proof {
        reveal(spacing_tree);
        lemma_member_views(members@);
    }
    let json = Json::Object(members);
    assert(json@->Object_0 =~= spacing_tree(value@)->Object_0);
    json
}

/// Reads the spacing from a tree.
pub fn spacing_from_json(json: &Json) -> (r: Result<Spacing, DecodeError>)
    ensures
        decoded(r) == spacing_of(json@),
{
    proof {
        reveal(spacing_of);
    }
    if !json.is_object() {
        return Err(DecodeError::mismatch());
    }
    let item_spacing = placed(vector2_from_json(need(json, "item_spacing")?), "item_spacing")?;
    let window_margin = placed(margin_from_json(need(json, "window_margin")?), "window_margin")?;
    let button_padding = placed(
        vector2_from_json(need(json, "button_padding")?),
        "button_padding",
    )?;
    let menu_margin = placed(margin_from_json(need(json, "menu_margin")?), "menu_margin")?;
    let indent = placed(scalar_from_json(need(json, "indent")?), "indent")?;
    let interact_size = placed(vector2_from_json(need(json, "interact_size")?), "interact_size")?;
    let slider_width = placed(scalar_from_json(need(json, "slider_width")?), "slider_width")?;
    let combo_width = placed(scalar_from_json(need(json, "combo_width")?), "combo_width")?;
    let text_edit_width = placed(
        scalar_from_json(need(json, "text_edit_width")?),
        "text_edit_width",
    )?;
    let icon_width = placed(scalar_from_json(need(json, "icon_width")?), "icon_width")?;
    let icon_width_inner = placed(
        scalar_from_json(need(json, "icon_width_inner")?),
        "icon_width_inner",
    )?;
    let icon_spacing = placed(scalar_from_json(need(json, "icon_spacing")?), "icon_spacing")?;
    let tooltip_width = placed(scalar_from_json(need(json, "tooltip_width")?), "tooltip_width")?;
    let indent_ends_with_horizontal_line = placed(
        bool_from_json(need(json, "indent_ends_with_horizontal_line")?),
        "indent_ends_with_horizontal_line",
    )?;
    let combo_height = placed(scalar_from_json(need(json, "combo_height")?), "combo_height")?;
    let scroll = placed(scroll_style_from_json(need(json, "scroll")?), "scroll")?;
    Ok(
        Spacing {
            item_spacing,
            window_margin,
            button_padding,
            menu_margin,
            indent,
            interact_size,
            slider_width,
            combo_width,
            text_edit_width,
            icon_width,
            icon_width_inner,
            icon_spacing,
            tooltip_width,
            indent_ends_with_horizontal_line,
            combo_height,
            scroll,
        },
    )
}

/// The tree that writes the interaction settings: an object with one member for
/// each field, in the order of the fields.
#[verifier::opaque]
pub open spec fn interaction_tree(value: InteractionView) -> JsonTree {
    JsonTree::Object(
        seq![
            ("resize_grab_radius_side"@, scalar_tree(value.resize_grab_radius_side)),
            ("resize_grab_radius_corner"@, scalar_tree(value.resize_grab_radius_corner)),
            ("show_tooltips_only_when_still"@, bool_tree(value.show_tooltips_only_when_still)),
        ],
    )
}

/// The interaction settings as a tree writes it. The tree has to be an object
/// with every member of the model, each of the right shape; only a member that
/// may be `null` may also be left out. Members that the model does not know are
/// passed over. The first member that fails, in the order of the fields, gives
/// the fault.
#[verifier::opaque]
pub open spec fn interaction_of(tree: JsonTree) -> Result<InteractionView, DecodeFault> {
    let resize_grab_radius_side = at(tree, "resize_grab_radius_side"@, |t: JsonTree| scalar_of(t));
    let resize_grab_radius_corner = at(
        tree,
        "resize_grab_radius_corner"@,
        |t: JsonTree| scalar_of(t),
    );
    let show_tooltips_only_when_still = at(
        tree,
        "show_tooltips_only_when_still"@,
        |t: JsonTree| bool_of(t),
    );
    if !(tree is Object) {
        Err(DecodeFault::mismatch())
    } else if resize_grab_radius_side is Err {
        Err(resize_grab_radius_side->Err_0)
    } else if resize_grab_radius_corner is Err {
        Err(resize_grab_radius_corner->Err_0)
    } else if show_tooltips_only_when_still is Err {
        Err(show_tooltips_only_when_still->Err_0)
    } else {
        Ok(
            InteractionView {
                resize_grab_radius_side: resize_grab_radius_side->Ok_0,
                resize_grab_radius_corner: resize_grab_radius_corner->Ok_0,
                show_tooltips_only_when_still: show_tooltips_only_when_still->Ok_0,
            },
        )
    }
}

/// Writes the interaction settings as a tree. The value is valid, as every
/// value of the model is.
pub fn interaction_to_json(value: &Interaction) -> (json: Json)
    ensures
        json@ == interaction_tree(value@),
        value@.valid(),
{
    let members = vec![
        (
            String::from_str("resize_grab_radius_side"),
            scalar_to_json(&value.resize_grab_radius_side),
        ),
        (
            String::from_str("resize_grab_radius_corner"),
            scalar_to_json(&value.resize_grab_radius_corner),
        ),
        (
            String::from_str("show_tooltips_only_when_still"),
            bool_to_json(value.show_tooltips_only_when_still),
        ),
    ];
    proof {
        reveal(interaction_tree);
        lemma_member_views(members@);
    }
    let json = Json::Object(members);
    assert(json@->Object_0 =~= interaction_tree(value@)->Object_0);
    json
}

/// Reads the interaction settings from a tree.
pub fn interaction_from_json(json: &Json) -> (r: Result<Interaction, DecodeError>)
    ensures
        decoded(r) == interaction_of(json@),
{
    proof {
        reveal(interaction_of);
    }
    if !json.is_object() {
        return Err(DecodeError::mismatch());
    }
    let resize_grab_radius_side = placed(
        scalar_from_json(need(json, "resize_grab_radius_side")?),
        "resize_grab_radius_side",
    )?;
    let resize_grab_radius_corner = placed(
        scalar_from_json(need(json, "resize_grab_radius_corner")?),
        "resize_grab_radius_corner",
    )?;
    let show_tooltips_only_when_still = placed(
        bool_from_json(need(json, "show_tooltips_only_when_still")?),
        "show_tooltips_only_when_still",
    )?;
    Ok(
        Interaction {
            resize_grab_radius_side,
            resize_grab_radius_corner,
            show_tooltips_only_when_still,
        },
    )
}

/// The tree that writes the visuals: an object with one member for each field,
/// in the order of the fields.
#[verifier::opaque]
pub open spec fn visuals_tree(value: VisualsView) -> JsonTree {
    JsonTree::Object(
        seq![
            ("dark_mode"@, bool_tree(value.dark_mode)),
            ("override_text_color"@, optional_color_tree(value.override_text_color)),
            ("widgets"@, widgets_tree(value.widgets)),
            ("selection"@, selection_tree(value.selection)),
            ("hyperlink_color"@, color_tree(value.hyperlink_color)),
            ("faint_bg_color"@, color_tree(value.faint_bg_color)),
            ("extreme_bg_color"@, color_tree(value.extreme_bg_color)),
            ("code_bg_color"@, color_tree(value.code_bg_color)),
            ("warn_fg_color"@, color_tree(value.warn_fg_color)),
            ("error_fg_color"@, color_tree(value.error_fg_color)),
            ("window_rounding"@, rounding_tree(value.window_rounding)),
            ("window_shadow"@, shadow_tree(value.window_shadow)),
            ("window_fill"@, color_tree(value.window_fill)),
            ("window_stroke"@, stroke_tree(value.window_stroke)),
            ("menu_rounding"@, rounding_tree(value.menu_rounding)),
            ("panel_fill"@, color_tree(value.panel_fill)),
            ("popup_shadow"@, shadow_tree(value.popup_shadow)),
            ("resize_corner_size"@, scalar_tree(value.resize_corner_size)),
            ("text_cursor"@, text_cursor_tree(value.text_cursor)),
            ("clip_rect_margin"@, scalar_tree(value.clip_rect_margin)),
            ("button_frame"@, bool_tree(value.button_frame)),
            ("collapsing_header_frame"@, bool_tree(value.collapsing_header_frame)),
            ("indent_has_left_vline"@, bool_tree(value.indent_has_left_vline)),
            ("striped"@, bool_tree(value.striped)),
            ("slider_trailing_fill"@, bool_tree(value.slider_trailing_fill)),
        ],
    )
}

/// The visuals as a tree writes it. The tree has to be an object with every
/// member of the model, each of the right shape; only a member that may be
/// `null` may also be left out. Members that the model does not know are passed
/// over. The first member that fails, in the order of the fields, gives the
/// fault.
#[verifier::opaque]
pub open spec fn visuals_of(tree: JsonTree) -> Result<VisualsView, DecodeFault> {
    let dark_mode = at(tree, "dark_mode"@, |t: JsonTree| bool_of(t));
    let override_text_color = at_optional(
        tree,
        "override_text_color"@,
        |t: JsonTree| optional_color_of(t),
    );
    let widgets = at(tree, "widgets"@, |t: JsonTree| widgets_of(t));
    let selection = at(tree, "selection"@, |t: JsonTree| selection_of(t));
    let hyperlink_color = at(tree, "hyperlink_color"@, |t: JsonTree| color_of(t));
    let faint_bg_color = at(tree, "faint_bg_color"@, |t: JsonTree| color_of(t));
    let extreme_bg_color = at(tree, "extreme_bg_color"@, |t: JsonTree| color_of(t));
    let code_bg_color = at(tree, "code_bg_color"@, |t: JsonTree| color_of(t));
    let warn_fg_color = at(tree, "warn_fg_color"@, |t: JsonTree| color_of(t));
    let error_fg_color = at(tree, "error_fg_color"@, |t: JsonTree| color_of(t));
    let window_rounding = at(tree, "window_rounding"@, |t: JsonTree| rounding_of(t));
    let window_shadow = at(tree, "window_shadow"@, |t: JsonTree| shadow_of(t));
    let window_fill = at(tree, "window_fill"@, |t: JsonTree| color_of(t));
    let window_stroke = at(tree, "window_stroke"@, |t: JsonTree| stroke_of(t));
    let menu_rounding = at(tree, "menu_rounding"@, |t: JsonTree| rounding_of(t));
    let panel_fill = at(tree, "panel_fill"@, |t: JsonTree| color_of(t));
    let popup_shadow = at(tree, "popup_shadow"@, |t: JsonTree| shadow_of(t));
    let resize_corner_size = at(tree, "resize_corner_size"@, |t: JsonTree| scalar_of(t));
    let text_cursor = at(tree, "text_cursor"@, |t: JsonTree| text_cursor_of(t));
    let clip_rect_margin = at(tree, "clip_rect_margin"@, |t: JsonTree| scalar_of(t));
    let button_frame = at(tree, "button_frame"@, |t: JsonTree| bool_of(t));
    let collapsing_header_frame = at(tree, "collapsing_header_frame"@, |t: JsonTree| bool_of(t));
    let indent_has_left_vline = at(tree, "indent_has_left_vline"@, |t: JsonTree| bool_of(t));
    let striped = at(tree, "striped"@, |t: JsonTree| bool_of(t));
    let slider_trailing_fill = at(tree, "slider_trailing_fill"@, |t: JsonTree| bool_of(t));
    if !(tree is Object) {
        Err(DecodeFault::mismatch())
    } else if dark_mode is Err {
        Err(dark_mode->Err_0)
    } else if override_text_color is Err {
        Err(override_text_color->Err_0)
    } else if widgets is Err {
        Err(widgets->Err_0)
    } else if selection is Err {
        Err(selection->Err_0)
    } else if hyperlink_color is Err {
        Err(hyperlink_color->Err_0)
    } else if faint_bg_color is Err {
        Err(faint_bg_color->Err_0)
    } else if extreme_bg_color is Err {
        Err(extreme_bg_color->Err_0)
    } else if code_bg_color is Err {
        Err(code_bg_color->Err_0)
    } else if warn_fg_color is Err {
        Err(warn_fg_color->Err_0)
    } else if error_fg_color is Err {
        Err(error_fg_color->Err_0)
    } else if window_rounding is Err {
        Err(window_rounding->Err_0)
    } else if window_shadow is Err {
        Err(window_shadow->Err_0)
    } else if window_fill is Err {
        Err(window_fill->Err_0)
    } else if window_stroke is Err {
        Err(window_stroke->Err_0)
    } else if menu_rounding is Err {
        Err(menu_rounding->Err_0)
    } else if panel_fill is Err {
        Err(panel_fill->Err_0)
    } else if popup_shadow is Err {
        Err(popup_shadow->Err_0)
    } else if resize_corner_size is Err {
        Err(resize_corner_size->Err_0)
    } else if text_cursor is Err {
        Err(text_cursor->Err_0)
    } else if clip_rect_margin is Err {
        Err(clip_rect_margin->Err_0)
    } else if button_frame is Err {
        Err(button_frame->Err_0)
    } else if collapsing_header_frame is Err {
        Err(collapsing_header_frame->Err_0)
    } else if indent_has_left_vline is Err {
        Err(indent_has_left_vline->Err_0)
    } else if striped is Err {
        Err(striped->Err_0)
    } else if slider_trailing_fill is Err {
        Err(slider_trailing_fill->Err_0)
    } else {
        Ok(
            VisualsView {
                dark_mode: dark_mode->Ok_0,
                override_text_color: override_text_color->Ok_0,
                widgets: widgets->Ok_0,
                selection: selection->Ok_0,
                hyperlink_color: hyperlink_color->Ok_0,
                faint_bg_color: faint_bg_color->Ok_0,
                extreme_bg_color: extreme_bg_color->Ok_0,
                code_bg_color: code_bg_color->Ok_0,
                warn_fg_color: warn_fg_color->Ok_0,
                error_fg_color: error_fg_color->Ok_0,
                window_rounding: window_rounding->Ok_0,
                window_shadow: window_shadow->Ok_0,
                window_fill: window_fill->Ok_0,
                window_stroke: window_stroke->Ok_0,
                menu_rounding: menu_rounding->Ok_0,
                panel_fill: panel_fill->Ok_0,
                popup_shadow: popup_shadow->Ok_0,
                resize_corner_size: resize_corner_size->Ok_0,
                text_cursor: text_cursor->Ok_0,
                clip_rect_margin: clip_rect_margin->Ok_0,
                button_frame: button_frame->Ok_0,
                collapsing_header_frame: collapsing_header_frame->Ok_0,
                indent_has_left_vline: indent_has_left_vline->Ok_0,
                striped: striped->Ok_0,
                slider_trailing_fill: slider_trailing_fill->Ok_0,
            },
        )
    }
}

/// Writes the visuals as a tree. The value is valid, as every value of the
/// model is.
pub fn visuals_to_json(value: &Visuals) -> (json: Json)
    ensures
        json@ == visuals_tree(value@),
        value@.valid(),
{
    let members = vec![
        (String::from_str("dark_mode"), bool_to_json(value.dark_mode)),
        (
            String::from_str("override_text_color"),
            optional_color_to_json(value.override_text_color),
        ),
        (String::from_str("widgets"), widgets_to_json(&value.widgets)),
        (String::from_str("selection"), selection_to_json(&value.selection)),
        (String::from_str("hyperlink_color"), color_to_json(value.hyperlink_color)),
        (String::from_str("faint_bg_color"), color_to_json(value.faint_bg_color)),
        (String::from_str("extreme_bg_color"), color_to_json(value.extreme_bg_color)),
        (String::from_str("code_bg_color"), color_to_json(value.code_bg_color)),
        (String::from_str("warn_fg_color"), color_to_json(value.warn_fg_color)),
        (String::from_str("error_fg_color"), color_to_json(value.error_fg_color)),
        (String::from_str("window_rounding"), rounding_to_json(&value.window_rounding)),
        (String::from_str("window_shadow"), shadow_to_json(&value.window_shadow)),
        (String::from_str("window_fill"), color_to_json(value.window_fill)),
        (String::from_str("window_stroke"), stroke_to_json(&value.window_stroke)),
        (String::from_str("menu_rounding"), rounding_to_json(&value.menu_rounding)),
        (String::from_str("panel_fill"), color_to_json(value.panel_fill)),
        (String::from_str("popup_shadow"), shadow_to_json(&value.popup_shadow)),
        (String::from_str("resize_corner_size"), scalar_to_json(&value.resize_corner_size)),
        (String::from_str("text_cursor"), text_cursor_to_json(&value.text_cursor)),
        (String::from_str("clip_rect_margin"), scalar_to_json(&value.clip_rect_margin)),
        (String::from_str("button_frame"), bool_to_json(value.button_frame)),
        (String::from_str("collapsing_header_frame"), bool_to_json(value.collapsing_header_frame)),
        (String::from_str("indent_has_left_vline"), bool_to_json(value.indent_has_left_vline)),
        (String::from_str("striped"), bool_to_json(value.striped)),
        (String::from_str("slider_trailing_fill"), bool_to_json(value.slider_trailing_fill)),
    ];
    proof {
        reveal(visuals_tree);
        lemma_member_views(members@);
    }
    let json = Json::Object(members);
    assert(json@->Object_0 =~= visuals_tree(value@)->Object_0);
    json
}

/// Reads the visuals from a tree.
pub fn visuals_from_json(json: &Json) -> (r: Result<Visuals, DecodeError>)
    ensures
        decoded(r) == visuals_of(json@),
{
    proof {
        reveal(visuals_of);
    }
    if !json.is_object() {
        return Err(DecodeError::mismatch());
    }
    let dark_mode = placed(bool_from_json(need(json, "dark_mode")?), "dark_mode")?;
    let override_text_color = match json.member("override_text_color") {
        Some(value) => placed(optional_color_from_json(value), "override_text_color")?,
        None => None,
    };
    let widgets = placed(widgets_from_json(need(json, "widgets")?), "widgets")?;
    let selection = placed(selection_from_json(need(json, "selection")?), "selection")?;
    let hyperlink_color = placed(
        color_from_json(need(json, "hyperlink_color")?),
        "hyperlink_color",
    )?;
    let faint_bg_color = placed(color_from_json(need(json, "faint_bg_color")?), "faint_bg_color")?;
    let extreme_bg_color = placed(
        color_from_json(need(json, "extreme_bg_color")?),
        "extreme_bg_color",
    )?;
    let code_bg_color = placed(color_from_json(need(json, "code_bg_color")?), "code_bg_color")?;
    let warn_fg_color = placed(color_from_json(need(json, "warn_fg_color")?), "warn_fg_color")?;
    let error_fg_color = placed(color_from_json(need(json, "error_fg_color")?), "error_fg_color")?;
    let window_rounding = placed(
        rounding_from_json(need(json, "window_rounding")?),
        "window_rounding",
    )?;
    let window_shadow = placed(shadow_from_json(need(json, "window_shadow")?), "window_shadow")?;
    let window_fill = placed(color_from_json(need(json, "window_fill")?), "window_fill")?;
    let window_stroke = placed(stroke_from_json(need(json, "window_stroke")?), "window_stroke")?;
    let menu_rounding = placed(rounding_from_json(need(json, "menu_rounding")?), "menu_rounding")?;
    let panel_fill = placed(color_from_json(need(json, "panel_fill")?), "panel_fill")?;
    let popup_shadow = placed(shadow_from_json(need(json, "popup_shadow")?), "popup_shadow")?;
    let resize_corner_size = placed(
        scalar_from_json(need(json, "resize_corner_size")?),
        "resize_corner_size",
    )?;
    let text_cursor = placed(text_cursor_from_json(need(json, "text_cursor")?), "text_cursor")?;
    let clip_rect_margin = placed(
        scalar_from_json(need(json, "clip_rect_margin")?),
        "clip_rect_margin",
    )?;
    let button_frame = placed(bool_from_json(need(json, "button_frame")?), "button_frame")?;
    let collapsing_header_frame = placed(
        bool_from_json(need(json, "collapsing_header_frame")?),
        "collapsing_header_frame",
    )?;
    let indent_has_left_vline = placed(
        bool_from_json(need(json, "indent_has_left_vline")?),
        "indent_has_left_vline",
    )?;
    let striped = placed(bool_from_json(need(json, "striped")?), "striped")?;
    let slider_trailing_fill = placed(
        bool_from_json(need(json, "slider_trailing_fill")?),
        "slider_trailing_fill",
    )?;
    Ok(
        Visuals {
            dark_mode,
            override_text_color,
            widgets,
            selection,
            hyperlink_color,
            faint_bg_color,
            extreme_bg_color,
            code_bg_color,
            warn_fg_color,
            error_fg_color,
            window_rounding,
            window_shadow,
            window_fill,
            window_stroke,
            menu_rounding,
            panel_fill,
            popup_shadow,
            resize_corner_size,
            text_cursor,
            clip_rect_margin,
            button_frame,
            collapsing_header_frame,
            indent_has_left_vline,
            striped,
            slider_trailing_fill,
        },
    )
}

/// The tree that writes a style: an object with one member for each field, in
/// the order of the fields.
#[verifier::opaque]
pub open spec fn style_tree(value: StyleModelView) -> JsonTree {
    JsonTree::Object(
        seq![
            ("wrap_mode"@, wrap_mode_tree(value.wrap_mode)),
            ("spacing"@, spacing_tree(value.spacing)),
            ("interaction"@, interaction_tree(value.interaction)),
            ("visuals"@, visuals_tree(value.visuals)),
            ("animation_time"@, scalar_tree(value.animation_time)),
            ("explanation_tooltips"@, bool_tree(value.explanation_tooltips)),
        ],
    )
}

/// A style as a tree writes it. The tree has to be an object with every member
/// of the model, each of the right shape; only a member that may be `null` may
/// also be left out. Members that the model does not know are passed over. The
/// first member that fails, in the order of the fields, gives the fault.
#[verifier::opaque]
pub open spec fn style_of(tree: JsonTree) -> Result<StyleModelView, DecodeFault> {
    let wrap_mode = at_optional(tree, "wrap_mode"@, |t: JsonTree| wrap_mode_of(t));
    let spacing = at(tree, "spacing"@, |t: JsonTree| spacing_of(t));
    let interaction = at(tree, "interaction"@, |t: JsonTree| interaction_of(t));
    let visuals = at(tree, "visuals"@, |t: JsonTree| visuals_of(t));
    let animation_time = at(tree, "animation_time"@, |t: JsonTree| scalar_of(t));
    let explanation_tooltips = at(tree, "explanation_tooltips"@, |t: JsonTree| bool_of(t));
    if !(tree is Object) {
        Err(DecodeFault::mismatch())
    } else if wrap_mode is Err {
        Err(wrap_mode->Err_0)
    } else if spacing is Err {
        Err(spacing->Err_0)
    } else if interaction is Err {
        Err(interaction->Err_0)
    } else if visuals is Err {
        Err(visuals->Err_0)
    } else if animation_time is Err {
        Err(animation_time->Err_0)
    } else if explanation_tooltips is Err {
        Err(explanation_tooltips->Err_0)
    } else {
        Ok(
            StyleModelView {
                wrap_mode: wrap_mode->Ok_0,
                spacing: spacing->Ok_0,
                interaction: interaction->Ok_0,
                visuals: visuals->Ok_0,
                animation_time: animation_time->Ok_0,
                explanation_tooltips: explanation_tooltips->Ok_0,
            },
        )
    }
}

/// Writes a style as a tree. The value is valid, as every value of the model
/// is.
pub fn style_to_json(value: &StyleModel) -> (json: Json)
    ensures
        json@ == style_tree(value@),
        value@.valid(),
{
    let members = vec![
        (String::from_str("wrap_mode"), wrap_mode_to_json(value.wrap_mode)),
        (String::from_str("spacing"), spacing_to_json(&value.spacing)),
        (String::from_str("interaction"), interaction_to_json(&value.interaction)),
        (String::from_str("visuals"), visuals_to_json(&value.visuals)),
        (String::from_str("animation_time"), scalar_to_json(&value.animation_time)),
        (String::from_str("explanation_tooltips"), bool_to_json(value.explanation_tooltips)),
    ];
    proof {
        reveal(style_tree);
        lemma_member_views(members@);
    }
    let json = Json::Object(members);
    assert(json@->Object_0 =~= style_tree(value@)->Object_0);
    json
}

/// Reads a style from a tree.
pub fn style_from_json(json: &Json) -> (r: Result<StyleModel, DecodeError>)
    ensures
        decoded(r) == style_of(json@),
{
    proof {
        reveal(style_of);
    }
    if !json.is_object() {
        return Err(DecodeError::mismatch());
    }
    let wrap_mode = match json.member("wrap_mode") {
        Some(value) => placed(wrap_mode_from_json(value), "wrap_mode")?,
        None => None,
    };
    let spacing = placed(spacing_from_json(need(json, "spacing")?), "spacing")?;
    let interaction = placed(interaction_from_json(need(json, "interaction")?), "interaction")?;
    let visuals = placed(visuals_from_json(need(json, "visuals")?), "visuals")?;
    let animation_time = placed(scalar_from_json(need(json, "animation_time")?), "animation_time")?;
    let explanation_tooltips = placed(
        bool_from_json(need(json, "explanation_tooltips")?),
        "explanation_tooltips",
    )?;
    Ok(
        StyleModel {
            wrap_mode,
            spacing,
            interaction,
            visuals,
            animation_time,
            explanation_tooltips,
        },
    )
}

} // verus!
