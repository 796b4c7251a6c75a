use trade_sdk::bingx::api::implemented as bingx_implemented;
use trade_sdk::bybit::api::implemented as bybit_implemented;

fn pretty_print_methods(title: &str, methods: &[&'static str]) {
    println!("\n{}", title);
    if methods.is_empty() {
        println!("  (none found)");
        return;
    }
    let cols = 2;
    let rows = methods.len().div_ceil(cols);
    let maxlen = methods.iter().map(|m| m.len()).max().unwrap_or(0) + 2;
    for r in 0..rows {
        let mut line = String::new();
        for c in 0..cols {
            let idx = r + c * rows;
            if idx < methods.len() {
                line.push_str(&format!(" {:width$}", methods[idx], width = maxlen));
            }
        }
        println!("{}", line);
    }
}

#[test]
fn print_all_implemented_methods() {
    let mut bybit_methods: Vec<_> = bybit_implemented();
    let mut bingx_methods: Vec<_> = bingx_implemented();

    bybit_methods.sort();
    bingx_methods.sort();

    pretty_print_methods(
        &format!("BybitClient methods ({}):", bybit_methods.len()),
        &bybit_methods,
    );
    pretty_print_methods(
        &format!("BingxClient methods ({}):", bingx_methods.len()),
        &bingx_methods,
    );
}

#[test]
fn implemented_methods_are_named_once() {
    let bybit_methods = bybit_implemented();
    let bingx_methods = bingx_implemented();
    assert_eq!(bybit_methods.len(), 18);
    assert_eq!(bingx_methods.len(), 30);
    for methods in [bybit_methods, bingx_methods] {
        let mut sorted = methods.clone();
        sorted.sort();
        sorted.dedup();
        assert_eq!(sorted.len(), methods.len());
    }
    assert!(bybit_implemented().contains(&"batch_cancel_order"));
    assert!(bingx_implemented().contains(&"get_swap_margin_type"));
}
