#[test]
fn lol() {
    let a = std::f64::INFINITY;

    let b = a as u8;

    println!("{}, {}", a, b);
}
