use option_directive::eval::{AuthError, ExecutionContext, Level, Value};
use option_directive::parse::option;

#[test]
fn database_level_is_enough() {
    let (_, d) = option("OPTION IMPORT").unwrap();
    let ctx = ExecutionContext { level: Level::Db };
    assert_eq!(Ok(Value::Empty), d.compute(&ctx));
}

#[test]
fn higher_levels_are_enough() {
    let (_, d) = option("OPTION IMPORT = FALSE").unwrap();
    assert_eq!(
        Ok(Value::Empty),
        d.compute(&ExecutionContext { level: Level::Ns })
    );
    assert_eq!(
        Ok(Value::Empty),
        d.compute(&ExecutionContext { level: Level::Kv })
    );
}

#[test]
fn below_database_level_is_denied() {
    let (_, d) = option("OPTION IMPORT").unwrap();
    let ctx = ExecutionContext { level: Level::No };
    assert_eq!(
        Err(AuthError { required: Level::Db, actual: Level::No }),
        d.compute(&ctx)
    );
}
