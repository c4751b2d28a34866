use yahoo_finance::history;
use yahoo_finance::yahoo::chart::BASE_URL;

#[test]
fn mock() {
    call_history();
}

fn call_history() {
    let data = history::retrieve(BASE_URL, "AAPL");
    match data {
        Ok(x) => {
            println!("OK");
            assert_eq!(
                x,
                "https://query1.finance.yahoo.com/v8/finance/chart/AAPL?range=6mo&interval=1d"
            );
        }
        Err(y) => panic!("Err {:?}", y),
    };

    let data = history::retrieve(BASE_URL, "eriygfuikygefkurg");
    match data {
        Ok(x) => {
            println!("OK");
            assert_eq!(
                x,
                "https://query1.finance.yahoo.com/v8/finance/chart/eriygfuikygefkurg?range=6mo&interval=1d"
            );
        }
        Err(y) => panic!("Err {:?}", y),
    };
}
