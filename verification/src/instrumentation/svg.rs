//! SVG markup shared by the scatter plot and the histogram.
use vstd::prelude::*;
use vstd::string::StringExecFns;
use crate::clocks::format::{push_signed_decimal, signed_decimal};

verus! {

/// The placeholder drawn when there is no data.
pub fn empty_svg() -> (r: String)
    ensures
        r@ == "<svg width=\"200\" height=\"100\" xmlns=\"http://www.w3.org/2000/svg\">\n<text x=\"100\" y=\"55\" text-anchor=\"middle\" font-size=\"14\" fill=\"#999\">No data</text>\n</svg>"@,
{
    String::from_str(
        "<svg width=\"200\" height=\"100\" xmlns=\"http://www.w3.org/2000/svg\">\n<text x=\"100\" y=\"55\" text-anchor=\"middle\" font-size=\"14\" fill=\"#999\">No data</text>\n</svg>",
    )
}

/// The opening `<svg>` tag of a `width` by `height` drawing.
pub fn svg_open(width: i32, height: i32) -> (r: String)
    ensures
        r@ == "<svg width=\""@ + signed_decimal(width as int) + "\" height=\""@ + signed_decimal(height as int)
            + "\" viewBox=\"0 0 "@ + signed_decimal(width as int) + " "@ + signed_decimal(height as int)
            + "\" xmlns=\"http://www.w3.org/2000/svg\">"@,
{
    let mut s = String::from_str("<svg width=\"");
    push_signed_decimal(&mut s, width as i64);
    s.append("\" height=\"");
    push_signed_decimal(&mut s, height as i64);
    s.append("\" viewBox=\"0 0 ");
    push_signed_decimal(&mut s, width as i64);
    s.append(" ");
    push_signed_decimal(&mut s, height as i64);
    s.append("\" xmlns=\"http://www.w3.org/2000/svg\">");
    s
}

/// The markup of a dark axis line from `(x1, y1)` to `(x2, y2)`.
pub open spec fn axis_line(x1: int, y1: int, x2: int, y2: int) -> Seq<char> {
    "<line x1=\""@ + signed_decimal(x1) + "\" y1=\""@ + signed_decimal(y1) + "\" x2=\""@ + signed_decimal(x2)
        + "\" y2=\""@ + signed_decimal(y2) + "\" stroke=\"#333\" stroke-width=\"2\"/>"@
}

fn push_axis_line(svg: &mut String, x1: i32, y1: i32, x2: i32, y2: i32)
    ensures
        final(svg)@ == old(svg)@ + axis_line(x1 as int, y1 as int, x2 as int, y2 as int),
{
    svg.append("<line x1=\"");
    push_signed_decimal(svg, x1 as i64);
    svg.append("\" y1=\"");
    push_signed_decimal(svg, y1 as i64);
    svg.append("\" x2=\"");
    push_signed_decimal(svg, x2 as i64);
    svg.append("\" y2=\"");
    push_signed_decimal(svg, y2 as i64);
    svg.append("\" stroke=\"#333\" stroke-width=\"2\"/>");
}

/// Append the X axis (along the bottom) and the Y axis (along the left) of
/// a plot area inset by `padding`.
pub fn draw_axes(svg: &mut String, width: i32, height: i32, padding: i32)
    requires
        i32::MIN <= height - padding <= i32::MAX,
        i32::MIN <= width - padding <= i32::MAX,
    ensures
        final(svg)@ == old(svg)@ + axis_line(padding as int, height - padding, width - padding, height - padding)
            + axis_line(padding as int, height - padding, padding as int, padding as int),
{
    push_axis_line(svg, padding, height - padding, width - padding, height - padding);
    push_axis_line(svg, padding, height - padding, padding, padding);
}

/// `x / 2`, rounded toward zero (as Rust's `/` on signed integers).
pub open spec fn half_toward_zero(x: int) -> int {
    if x >= 0 {
        x / 2
    } else {
        -((-x) / 2)
    }
}

fn half(x: i32) -> (r: i32)
    ensures
        r == half_toward_zero(x as int),
{
    if x >= 0 {
        x / 2
    } else {
        let m = (0 - (x as i64)) as u32;
        0 - ((m / 2) as i32)
    }
}

/// Append the axis captions: `x_label` centred below the plot and
/// `y_label` rotated along the left edge.
pub fn draw_axis_labels(svg: &mut String, width: i32, height: i32, x_label: &str, y_label: &str)
    requires
        i32::MIN <= height - 2,
    ensures
        final(svg)@ == old(svg)@ + "<text x=\""@ + signed_decimal(half_toward_zero(width as int)) + "\" y=\""@
            + signed_decimal(height - 2) + "\" text-anchor=\"middle\" font-size=\"12\">"@ + x_label@
            + "</text>"@ + "<text x=\""@ + signed_decimal(12) + "\" y=\""@ + signed_decimal(
            half_toward_zero(height as int),
        ) + "\" text-anchor=\"middle\" font-size=\"12\" transform=\"rotate(-90, "@ + signed_decimal(12) + ", "@
            + signed_decimal(half_toward_zero(height as int)) + ")\">"@ + y_label@ + "</text>"@,
{
    svg.append("<text x=\"");
    push_signed_decimal(svg, half(width) as i64);
    svg.append("\" y=\"");
    push_signed_decimal(svg, (height - 2) as i64);
    svg.append("\" text-anchor=\"middle\" font-size=\"12\">");
    svg.append(x_label);
    svg.append("</text>");
    svg.append("<text x=\"");
    push_signed_decimal(svg, 12);
    svg.append("\" y=\"");
    push_signed_decimal(svg, half(height) as i64);
    svg.append("\" text-anchor=\"middle\" font-size=\"12\" transform=\"rotate(-90, ");
    push_signed_decimal(svg, 12);
    svg.append(", ");
    push_signed_decimal(svg, half(height) as i64);
    svg.append(")\">");
    svg.append(y_label);
    svg.append("</text>");
}

} // verus!
