use syn::parse::Parser;
use syn::punctuated::Punctuated;
use syn::token::Comma;
use syn::Meta;
use tokio_pulse::instrument::{
    check_budget, expansion_config, expr_contains_await, not_async_message, stmt_contains_await,
    ArgValue, AttributeArg, BudgetConfig, BudgetInjector, ErrorSite, ExprShape, StmtShape,
};
use tokio_pulse::TaskBudget;

fn list(text: &str) -> Punctuated<Meta, Comma> {
    Punctuated::<Meta, Comma>::parse_terminated.parse_str(text).unwrap()
}

fn refusal(text: &str) -> (ErrorSite, String) {
    let error = BudgetConfig::from_meta_list(&list(text)).unwrap_err();
    assert_eq!(error.index, 0);
    (error.site, error.message)
}

fn arg(name: &str, value: ArgValue) -> AttributeArg {
    AttributeArg { name: Some(name.to_string()), value }
}

#[test]
fn test_budget_config_parsing() {
    let meta_list = list("budget = 1500, deadline = true");
    let config = BudgetConfig::from_meta_list(&meta_list).unwrap();

    assert_eq!(config.budget, Some(1500));
    assert_eq!(config.deadline, Some(true));
}

#[test]
fn test_invalid_budget_range() {
    let meta_list = list("budget = 50");
    let result = BudgetConfig::from_meta_list(&meta_list);

    assert!(result.is_err());
    assert!(result.unwrap_err().message.contains("Budget must be between"));
}

#[test]
fn budgets_are_accepted_up_to_their_bounds() {
    for budget in [100, 10_000] {
        let config =
            BudgetConfig::from_args(&vec![arg("budget", ArgValue::Int(budget))]).unwrap();
        assert_eq!(config.initial_budget(), budget);
    }
    for text in ["budget = 99", "budget = 10_001"] {
        let (site, message) = refusal(text);
        assert_eq!(site, ErrorSite::Literal);
        assert_eq!(message, "Budget must be between 100 and 10,000");
    }
}

#[test]
fn without_arguments_the_defaults_hold() {
    let config = BudgetConfig::from_meta_list(&list("")).unwrap();
    assert_eq!(config, BudgetConfig::default());
    assert_eq!(config.initial_budget(), 2000);
    assert_eq!(BudgetConfig::from_args(&Vec::new()).unwrap(), config);
}

#[test]
fn the_last_value_of_a_name_counts() {
    let config =
        BudgetConfig::from_meta_list(&list("budget = 500, check_interval = 3, budget = 600"))
            .unwrap();
    assert_eq!(config.budget, Some(600));
    assert_eq!(config.check_interval, Some(3));
}

#[test]
fn wrong_values_are_refused_where_they_stand() {
    assert_eq!(
        refusal("budget = true"),
        (ErrorSite::Literal, "Budget must be an integer".to_string())
    );
    assert_eq!(
        refusal("budget = 20 * 30"),
        (ErrorSite::Value, "Budget value must be an integer literal".to_string())
    );
    assert_eq!(
        refusal("budget = 4294967296"),
        (ErrorSite::Literal, "number too large to fit in target type".to_string())
    );
    assert_eq!(
        refusal("deadline = 1"),
        (ErrorSite::Literal, "Deadline must be a boolean".to_string())
    );
    assert_eq!(
        refusal("deadline = yes"),
        (ErrorSite::Value, "Deadline value must be a boolean literal".to_string())
    );
    assert_eq!(
        refusal("check_interval = 0"),
        (ErrorSite::Literal, "Check interval must be greater than 0".to_string())
    );
    assert_eq!(
        refusal("check_interval = \"two\""),
        (ErrorSite::Literal, "Check interval must be an integer".to_string())
    );
    assert_eq!(
        refusal("check_interval = often"),
        (ErrorSite::Value, "Check interval value must be an integer literal".to_string())
    );
    let unknown = "Invalid argument. Supported: budget, deadline, check_interval".to_string();
    for text in ["budgets = 500", "budget", "budget(500)", "pulse::budget = 500"] {
        assert_eq!(refusal(text), (ErrorSite::Argument, unknown.clone()));
    }

    let error =
        BudgetConfig::from_meta_list(&list("budget = 500, deadline, budget = 1")).unwrap_err();
    assert_eq!(error.index, 1);
    assert_eq!(error.site, ErrorSite::Argument);
    assert_eq!(error.message, unknown);
}

#[test]
fn unreadable_integers_keep_their_reason() {
    let args = vec![
        arg("budget", ArgValue::Int(500)),
        arg("check_interval", ArgValue::UnreadableInt("too large".to_string())),
    ];
    let error = BudgetConfig::from_args(&args).unwrap_err();
    assert_eq!(error.index, 1);
    assert_eq!(error.site, ErrorSite::Literal);
    assert_eq!(error.message, "too large");
}

#[test]
fn only_async_functions_are_expanded() {
    assert!(matches!(expansion_config(false, &list("")), Err(None)));
    assert_eq!(
        not_async_message(),
        "#[preemption_budget] can only be applied to async functions"
    );
    assert!(matches!(expansion_config(true, &list("budgets")), Err(Some(_))));
    let config = expansion_config(true, &list("budget = 700")).unwrap();
    assert_eq!(config.initial_budget(), 700);
}

fn awaited() -> ExprShape {
    ExprShape::Await(Box::new(ExprShape::Other))
}

#[test]
fn awaits_are_found_behind_operators() {
    // let page = fetch().await?;
    let tried = ExprShape::Compound(vec![awaited()]);
    assert!(stmt_contains_await(&StmtShape::Local(Some(tried))));
    // total += &fetch().await?;
    let tried = ExprShape::Compound(vec![awaited()]);
    let reference = ExprShape::Compound(vec![tried]);
    let sum = ExprShape::Compound(vec![ExprShape::Other, reference]);
    assert!(expr_contains_await(&sum));
    let sum = ExprShape::Compound(vec![ExprShape::Other, ExprShape::Other]);
    assert!(!expr_contains_await(&sum));
    let mut injector = BudgetInjector::new(BudgetConfig::default());
    let stmts = vec![
        StmtShape::Local(Some(ExprShape::Compound(vec![awaited()]))),
        StmtShape::Expr(ExprShape::Compound(vec![ExprShape::Other])),
    ];
    assert_eq!(injector.plan_block(&stmts), vec![true, false]);
}

#[test]
fn each_await_point_is_counted() {
    let both = || {
        StmtShape::Expr(ExprShape::Call(Box::new(ExprShape::Other), vec![awaited(), awaited()]))
    };
    let config = BudgetConfig { check_interval: Some(3), ..BudgetConfig::default() };
    let mut injector = BudgetInjector::new(config);
    // 2, 4, 5 and 6 await points: the third and the sixth are reached.
    let stmts = vec![both(), both(), StmtShape::Expr(awaited()), StmtShape::Expr(awaited())];
    assert_eq!(injector.plan_block(&stmts), vec![false, true, false, true]);
    // fetch().await.parse().await
    let chained = StmtShape::Expr(ExprShape::Await(Box::new(ExprShape::MethodCall(
        Box::new(awaited()),
        Vec::new(),
    ))));
    let config = BudgetConfig { check_interval: Some(2), ..BudgetConfig::default() };
    let mut injector = BudgetInjector::new(config);
    assert_eq!(injector.plan_block(&vec![chained]), vec![true]);
}

#[test]
fn nested_blocks_count_their_own_await_points() {
    // if ready().await { step().await; }
    let inner = || vec![StmtShape::Expr(awaited())];
    let branch = ExprShape::Compound(vec![awaited(), ExprShape::Block(inner())]);
    let outer = vec![StmtShape::Expr(branch), StmtShape::Expr(ExprShape::Block(inner()))];
    assert!(stmt_contains_await(&outer[1]));
    let config = BudgetConfig { check_interval: Some(2), ..BudgetConfig::default() };
    let mut injector = BudgetInjector::new(config);
    assert_eq!(injector.plan_block(&inner()), vec![false]);
    assert_eq!(injector.plan_block(&outer), vec![true, false]);
    assert_eq!(injector.plan_block(&inner()), vec![false]);
}

#[test]
fn awaits_are_found_in_depth() {
    assert!(expr_contains_await(&awaited()));
    assert!(!expr_contains_await(&ExprShape::Other));
    let argument = ExprShape::Call(
        Box::new(ExprShape::Other),
        vec![ExprShape::Other, ExprShape::MethodCall(Box::new(awaited()), Vec::new())],
    );
    assert!(expr_contains_await(&argument));
    let block = ExprShape::Block(vec![
        StmtShape::Other,
        StmtShape::Local(None),
        StmtShape::Local(Some(argument)),
    ]);
    assert!(stmt_contains_await(&StmtShape::Expr(block)));
    let block = ExprShape::Block(vec![StmtShape::Other, StmtShape::Expr(ExprShape::Other)]);
    assert!(!stmt_contains_await(&StmtShape::Expr(block)));
}

#[test]
fn awaiting_statements_get_checks() {
    let stmts = vec![
        StmtShape::Local(Some(awaited())),
        StmtShape::Other,
        StmtShape::Expr(awaited()),
        StmtShape::Expr(awaited()),
    ];
    let mut injector = BudgetInjector::new(BudgetConfig::default());
    assert_eq!(injector.plan_block(&stmts), vec![true, false, true, true]);

    let config = BudgetConfig { check_interval: Some(2), ..BudgetConfig::default() };
    let mut injector = BudgetInjector::new(config);
    assert_eq!(injector.plan_block(&stmts), vec![false, false, true, false]);
    // The count goes on from block to block.
    assert_eq!(injector.plan_block(&stmts), vec![true, false, false, true]);
}

#[test]
fn exhausted_budgets_are_refilled() {
    let mut budget = TaskBudget::new(100);
    for _ in 0..99 {
        assert!(!check_budget(&mut budget));
    }
    assert_eq!(budget.remaining(), 1);
    assert!(check_budget(&mut budget));
    assert_eq!(budget.remaining(), 100);
    assert!(!check_budget(&mut budget));
}
