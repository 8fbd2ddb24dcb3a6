use ptouch::step_filter;

#[test]
fn check_step_filter_with_dots() {
    let (w, h): (u32, u32) = (16, 16);
    let mut buf = vec![255; (w * h) as usize];
    for j in 0..h {
        for i in 0..w {
            buf[(i + j * w) as usize] = if i % 2 == 0 { 255 } else { 0 };
        }
    }

    let filtered = step_filter(127, w, h, buf);

    let bw = vec![vec![170, 170]; 16];

    assert_eq!(filtered, bw);
}
