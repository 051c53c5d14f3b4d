use render_loop::color::compute_cursor_color;
use render_loop::color::Channel;

#[test]
fn corner_positions_give_exact_channels() {
    let top_left = compute_cursor_color(0, 0, 800, 600);
    assert_eq!(top_left.r, Channel { num: 0, den: 800 });
    assert_eq!(top_left.g, Channel { num: 0, den: 600 });
    assert_eq!(top_left.b, Channel { num: 0, den: 480_000 });
    assert_eq!(top_left.a, Channel { num: 1, den: 1 });

    let bottom_right = compute_cursor_color(800, 600, 800, 600);
    assert_eq!(bottom_right.r, Channel { num: 800, den: 800 });
    assert_eq!(bottom_right.g, Channel { num: 600, den: 600 });
    // 800/800 + 600/600 = 2, exactly 960_000 / 480_000.
    assert_eq!(bottom_right.b, Channel { num: 960_000, den: 480_000 });
}

#[test]
fn center_position_gives_half_half_one() {
    let c = compute_cursor_color(400, 300, 800, 600);
    assert_eq!(c.r.num as f64 / c.r.den as f64, 0.5);
    assert_eq!(c.g.num as f64 / c.g.den as f64, 0.5);
    assert_eq!(c.b.num as f64 / c.b.den as f64, 1.0);
    assert_eq!(c.a.num as f64 / c.a.den as f64, 1.0);
}

#[test]
fn blue_is_the_exact_sum_of_red_and_green() {
    let c = compute_cursor_color(123, 457, 1920, 1080);
    assert_eq!(c.r, Channel { num: 123, den: 1920 });
    assert_eq!(c.g, Channel { num: 457, den: 1080 });
    // 123/1920 + 457/1080 = (123*1080 + 457*1920) / (1920*1080).
    assert_eq!(c.b, Channel { num: 123 * 1080 + 457 * 1920, den: 1920 * 1080 });
    // Cross-multiplied: blue really equals red plus green.
    let lhs = c.b.num * (c.r.den * c.g.den);
    let rhs = (c.r.num * c.g.den + c.g.num * c.r.den) * c.b.den;
    assert_eq!(lhs, rhs);
}

#[test]
fn largest_window_and_cursor_do_not_overflow() {
    let m = u32::MAX;
    let c = compute_cursor_color(m, m, m, m);
    assert_eq!(c.r, Channel { num: m as u128, den: m as u128 });
    assert_eq!(c.b.num, 2 * (m as u128) * (m as u128));
    assert_eq!(c.b.den, (m as u128) * (m as u128));
    assert_eq!(c.b.num as f64 / c.b.den as f64, 2.0);
}
