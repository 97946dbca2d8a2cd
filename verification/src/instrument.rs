//! Decisions of the attribute that instruments async functions with budget checks.
//!
//! Source code is seen here as far as the decisions depend on it: the arguments of
//! the attribute, and where a statement awaits. `syn` reads the arguments.

use crate::budget::{BudgetModel, TaskBudget, MAX_BUDGET, MIN_BUDGET};
use crate::text::same_text;
use syn::punctuated::Punctuated;
use syn::token::Comma;
use syn::Meta;
use vstd::prelude::*;
use vstd::string::*;

verus! {

/// Value of an argument.
#[derive(Debug, Clone)]
pub enum ArgValue {
    /// An integer literal of at most 32 bits.
    Int(u32),
    /// An integer literal that cannot be read, and why.
    UnreadableInt(String),
    /// A boolean literal.
    Bool(bool),
    /// A literal of another kind.
    OtherLiteral,
    /// Not a literal.
    NotLiteral,
}

/// What an [`ArgValue`] holds.
#[verifier::ext_equal]
pub enum ValueModel {
    Int(u32),
    UnreadableInt(Seq<char>),
    Bool(bool),
    OtherLiteral,
    NotLiteral,
}

impl View for ArgValue {
    type V = ValueModel;

    open spec fn view(&self) -> ValueModel {
        match *self {
            ArgValue::Int(number) => ValueModel::Int(number),
            ArgValue::UnreadableInt(reason) => ValueModel::UnreadableInt(reason@),
            ArgValue::Bool(boolean) => ValueModel::Bool(boolean),
            ArgValue::OtherLiteral => ValueModel::OtherLiteral,
            ArgValue::NotLiteral => ValueModel::NotLiteral,
        }
    }
}

/// Argument of the attribute.
#[derive(Debug, Clone)]
pub struct AttributeArg {
    /// The name in `name = value`, if the argument has this form and the name is a
    /// single identifier.
    pub name: Option<String>,
    /// The value.
    pub value: ArgValue,
}

/// What an [`AttributeArg`] holds.
#[verifier::ext_equal]
pub struct ArgModel {
    /// The name.
    pub name: Option<Seq<char>>,
    /// The value.
    pub value: ValueModel,
}

impl View for AttributeArg {
    type V = ArgModel;

    open spec fn view(&self) -> ArgModel {
        ArgModel {
            name: match self.name {
                Some(name) => Some(name@),
                None => None,
            },
            value: self.value@,
        }
    }
}

/// What the arguments hold.
pub open spec fn args_of(args: Seq<AttributeArg>) -> Seq<ArgModel> {
    args.map_values(|arg: AttributeArg| arg@)
}

/// `syn`'s list of things with separators between them.
#[verifier::external_type_specification]
#[verifier::external_body]
#[verifier::reject_recursive_types(T)]
#[verifier::reject_recursive_types(P)]
pub struct ExPunctuated<T, P>(syn::punctuated::Punctuated<T, P>);

/// `syn`'s argument of an attribute.
#[verifier::external_type_specification]
#[verifier::external_body]
pub struct ExMeta(syn::Meta);

/// `syn`'s comma.
#[verifier::external_type_specification]
#[verifier::external_body]
pub struct ExComma(syn::token::Comma);

/// The arguments in a list, in order.
pub uninterp spec fn listed_args(list: Punctuated<Meta, Comma>) -> Seq<ArgModel>;

/// `Punctuated::iter` walks over the list in order. Of each argument the name is
/// what `Path::get_ident` gives, and the value is told apart by the variants of
/// `Expr` and `Lit`; an integer literal is read with `LitInt::base10_parse`.
#[verifier::external_body]
fn list_args(list: &Punctuated<Meta, Comma>) -> (args: Vec<AttributeArg>)
    ensures
        args_of(args@) == listed_args(*list),
{
    let value = |value: &syn::Expr| match value {
        syn::Expr::Lit(literal) => match &literal.lit {
            syn::Lit::Int(number) => number.base10_parse()
                .map_or_else(|error| ArgValue::UnreadableInt(error.to_string()), ArgValue::Int),
            syn::Lit::Bool(boolean) => ArgValue::Bool(boolean.value),
            _ => ArgValue::OtherLiteral,
        },
        _ => ArgValue::NotLiteral,
    };
    let name = |path: &syn::Path| path.get_ident().map(|name| name.to_string());
    list.iter().map(|meta| match meta {
        Meta::NameValue(pair) => AttributeArg { name: name(&pair.path), value: value(&pair.value) },
        _ => AttributeArg { name: None, value: ArgValue::NotLiteral },
    }).collect()
}

/// What an error message points at.
#[derive(Debug, Clone, Copy, PartialEq, Eq, Structural)]
pub enum ErrorSite {
    /// The literal.
    Literal,
    /// The value.
    Value,
    /// The whole argument.
    Argument,
}

/// Why the arguments are refused.
#[derive(Debug, Clone)]
pub struct ArgError {
    /// Which argument, counted from zero.
    pub index: usize,
    /// What the message points at.
    pub site: ErrorSite,
    /// The message.
    pub message: String,
}

/// Configuration of the attribute.
#[derive(Debug, Clone, Copy, PartialEq, Eq, Structural)]
pub struct BudgetConfig {
    /// Initial budget.
    pub budget: Option<u32>,
    /// Whether there are deadlines of CPU time.
    pub deadline: Option<bool>,
    /// Check the budget every so many await points.
    pub check_interval: Option<u32>,
}

impl Default for BudgetConfig {
    fn default() -> (config: Self)
        ensures
            config == default_budget_config(),
    {
        BudgetConfig { budget: Some(2000), deadline: Some(false), check_interval: Some(1) }
    }
}

/// The configuration without arguments.
pub open spec fn default_budget_config() -> BudgetConfig {
    BudgetConfig { budget: Some(2000), deadline: Some(false), check_interval: Some(1) }
}

/// What one argument does to the configuration: the new configuration, or where
/// and why the argument is refused.
pub open spec fn applied(config: BudgetConfig, arg: ArgModel) -> Result<
    BudgetConfig,
    (ErrorSite, Seq<char>),
> {
    match arg.name {
        Some(name) => if name == "budget"@ {
            match arg.value {
                ValueModel::Int(budget) => if MIN_BUDGET <= budget <= MAX_BUDGET {
                    Ok(BudgetConfig { budget: Some(budget), ..config })
                } else {
                    Err((ErrorSite::Literal, "Budget must be between 100 and 10,000"@))
                },
                ValueModel::UnreadableInt(reason) => Err((ErrorSite::Literal, reason)),
                ValueModel::NotLiteral => Err(
                    (ErrorSite::Value, "Budget value must be an integer literal"@),
                ),
                _ => Err((ErrorSite::Literal, "Budget must be an integer"@)),
            }
        } else if name == "deadline"@ {
            match arg.value {
                ValueModel::Bool(deadline) => Ok(
                    BudgetConfig { deadline: Some(deadline), ..config },
                ),
                ValueModel::NotLiteral => Err(
                    (ErrorSite::Value, "Deadline value must be a boolean literal"@),
                ),
                _ => Err((ErrorSite::Literal, "Deadline must be a boolean"@)),
            }
        } else if name == "check_interval"@ {
            match arg.value {
                ValueModel::Int(interval) => if interval == 0 {
                    Err((ErrorSite::Literal, "Check interval must be greater than 0"@))
                } else {
                    Ok(BudgetConfig { check_interval: Some(interval), ..config })
                },
                ValueModel::UnreadableInt(reason) => Err((ErrorSite::Literal, reason)),
                ValueModel::NotLiteral => Err(
                    (ErrorSite::Value, "Check interval value must be an integer literal"@),
                ),
                _ => Err((ErrorSite::Literal, "Check interval must be an integer"@)),
            }
        } else {
            Err(unknown_argument())
        },
        None => Err(unknown_argument()),
    }
}

/// Where and why an argument that is not known is refused.
pub open spec fn unknown_argument() -> (ErrorSite, Seq<char>) {
    (
        ErrorSite::Argument,
        "Invalid argument. Supported: budget, deadline, check_interval"@,
    )
}

/// What the first `n` arguments amount to: the configuration, or which of them is
/// refused first, where and why.
pub open spec fn applied_all(args: Seq<ArgModel>, n: nat) -> Result<
    BudgetConfig,
    (nat, ErrorSite, Seq<char>),
>
    decreases n,
{
    if n == 0 {
        Ok(default_budget_config())
    } else {
        match applied_all(args, (n - 1) as nat) {
            Err(error) => Err(error),
            Ok(config) => match applied(config, args[n - 1]) {
                Ok(next) => Ok(next),
                Err((site, message)) => Err(((n - 1) as nat, site, message)),
            },
        }
    }
}

/// Whether a result is what the arguments amount to.
pub open spec fn outcome_agrees(
    args: Seq<ArgModel>,
    result: Result<BudgetConfig, ArgError>,
) -> bool {
    match (applied_all(args, args.len()), result) {
        (Ok(expected), Ok(config)) => config == expected,
        (Err((index, site, message)), Err(error)) => {
            &&& error.index == index
            &&& error.site == site
            &&& error.message@ == message
        },
        _ => false,
    }
}

fn refuse(site: ErrorSite, message: &str) -> (error: (ErrorSite, String))
    ensures
        error.0 == site,
        error.1@ == message@,
{
    (site, message.to_owned())
}

impl BudgetConfig {
    /// Lets one argument take effect.
    fn apply(self, arg: &AttributeArg) -> (result: Result<BudgetConfig, (ErrorSite, String)>)
        ensures
            match (applied(self, arg@), result) {
                (Ok(expected), Ok(config)) => config == expected,
                (Err((site, message)), Err(error)) => error.0 == site && error.1@ == message,
                _ => false,
            },
    {
        match &arg.name {
            Some(name) => {
                if same_text(name.as_str(), "budget") {
                    match &arg.value {
                        ArgValue::Int(budget) => {
                            if MIN_BUDGET <= *budget && *budget <= MAX_BUDGET {
                                Ok(BudgetConfig { budget: Some(*budget), ..self })
                            } else {
                                Err(
                                    refuse(
                                        ErrorSite::Literal,
                                        "Budget must be between 100 and 10,000",
                                    ),
                                )
                            }
                        },
                        ArgValue::UnreadableInt(reason) => {
                            Err(refuse(ErrorSite::Literal, reason.as_str()))
                        },
                        ArgValue::NotLiteral => Err(
                            refuse(ErrorSite::Value, "Budget value must be an integer literal"),
                        ),
                        _ => Err(refuse(ErrorSite::Literal, "Budget must be an integer")),
                    }
                } else if same_text(name.as_str(), "deadline") {
                    match &arg.value {
                        ArgValue::Bool(deadline) => {
                            Ok(BudgetConfig { deadline: Some(*deadline), ..self })
                        },
                        ArgValue::NotLiteral => Err(
                            refuse(ErrorSite::Value, "Deadline value must be a boolean literal"),
                        ),
                        _ => Err(refuse(ErrorSite::Literal, "Deadline must be a boolean")),
                    }
                } else if same_text(name.as_str(), "check_interval") {
                    match &arg.value {
                        ArgValue::Int(interval) => {
                            if *interval == 0 {
                                Err(
                                    refuse(
                                        ErrorSite::Literal,
                                        "Check interval must be greater than 0",
                                    ),
                                )
                            } else {
                                Ok(BudgetConfig { check_interval: Some(*interval), ..self })
                            }
                        },
                        ArgValue::UnreadableInt(reason) => {
                            Err(refuse(ErrorSite::Literal, reason.as_str()))
                        },
                        ArgValue::NotLiteral => Err(
                            refuse(
                                ErrorSite::Value,
                                "Check interval value must be an integer literal",
                            ),
                        ),
                        _ => Err(refuse(ErrorSite::Literal, "Check interval must be an integer")),
                    }
                } else {
                    Err(
                        refuse(
                            ErrorSite::Argument,
                            "Invalid argument. Supported: budget, deadline, check_interval",
                        ),
                    )
                }
            },
            None => Err(
                refuse(
                    ErrorSite::Argument,
                    "Invalid argument. Supported: budget, deadline, check_interval",
                ),
            ),
        }
    }

    /// Makes the configuration out of the arguments, the later ones last.
    ///
    /// # Errors
    ///
    /// The first argument that is refused.
    pub fn from_meta_list(meta_list: &Punctuated<Meta, Comma>) -> (result: Result<
        BudgetConfig,
        ArgError,
    >)
        ensures
            outcome_agrees(listed_args(*meta_list), result),
    {
        let args = list_args(meta_list);
        BudgetConfig::from_args(&args)
    }

    /// [`from_meta_list`](Self::from_meta_list) with the arguments as plain values.
    ///
    /// # Errors
    ///
    /// The first argument that is refused.
    pub fn from_args(args: &Vec<AttributeArg>) -> (result: Result<BudgetConfig, ArgError>)
        ensures
            outcome_agrees(args_of(args@), result),
    {
        let ghost models = args_of(args@);
        let mut config = BudgetConfig::default();
        let mut index: usize = 0;
        while index < args.len()
            invariant
                index <= args.len(),
                models == args_of(args@),
                applied_all(models, index as nat) == Ok::<
                    BudgetConfig,
                    (nat, ErrorSite, Seq<char>),
                >(config),
            decreases args.len() - index,
        {
            match config.apply(&args[index]) {
                Ok(next) => {
                    config = next;
                },
                Err((site, message)) => {
                    proof {
                        lemma_refused_stays_refused(models, (index + 1) as nat, models.len());
                    }
                    return Err(ArgError { index, site, message });
                },
            }
            index += 1;
        }
        Ok(config)
    }

    /// The budget to start with.
    pub fn initial_budget(&self) -> (budget: u32)
        ensures
            budget == (match self.budget {
                Some(budget) => budget,
                None => 2000,
            }),
    {
        match self.budget {
            Some(budget) => budget,
            None => 2000,
        }
    }
}

proof fn lemma_refused_stays_refused(args: Seq<ArgModel>, n: nat, more: nat)
    requires
        applied_all(args, n) is Err,
        n <= more,
    ensures
        applied_all(args, more) == applied_all(args, n),
    decreases more,
{
    if n < more {
        lemma_refused_stays_refused(args, n, (more - 1) as nat);
    }
}

/// Accepted arguments always leave a budget within its limits and an interval
/// above zero.
pub proof fn accepted_config_is_usable(args: Seq<ArgModel>, n: nat)
    requires
        applied_all(args, n) is Ok,
    ensures
        applied_all(args, n)->Ok_0.budget matches Some(budget) && MIN_BUDGET <= budget
            <= MAX_BUDGET,
        applied_all(args, n)->Ok_0.check_interval matches Some(interval) && interval > 0,
        applied_all(args, n)->Ok_0.deadline is Some,
    decreases n,
{
    if n > 0 {
        accepted_config_is_usable(args, (n - 1) as nat);
    }
}

/// Checks that the attribute stands on an async function and makes its
/// configuration.
///
/// # Errors
///
/// `Err(None)` for a function that is not async, else the error of the arguments.
pub fn expansion_config(is_async: bool, meta_list: &Punctuated<Meta, Comma>) -> (result: Result<
    BudgetConfig,
    Option<ArgError>,
>)
    ensures
        !is_async ==> result == Err::<BudgetConfig, Option<ArgError>>(None),
        is_async ==> match result {
            Ok(config) => outcome_agrees(listed_args(*meta_list), Ok(config)),
            Err(Some(error)) => outcome_agrees(listed_args(*meta_list), Err(error)),
            Err(None) => false,
        },
{
    if !is_async {
        return Err(None);
    }
    match BudgetConfig::from_meta_list(meta_list) {
        Ok(config) => Ok(config),
        Err(error) => Err(Some(error)),
    }
}

/// Message for a function that is not async.
pub fn not_async_message() -> (text: &'static str)
    ensures
        text@ == "#[preemption_budget] can only be applied to async functions"@,
{
    "#[preemption_budget] can only be applied to async functions"
}

/// An expression, as far as awaiting goes.
#[derive(Debug)]
pub enum ExprShape {
    /// An await: what is awaited.
    Await(Box<ExprShape>),
    /// A block.
    Block(Vec<StmtShape>),
    /// A call: the function and the arguments.
    Call(Box<ExprShape>, Vec<ExprShape>),
    /// A method call: the receiver and the arguments.
    MethodCall(Box<ExprShape>, Vec<ExprShape>),
    /// An expression made of others that are evaluated along with it, such as `?`,
    /// an operator, a branch, a loop or a tuple: its parts.
    Compound(Vec<ExprShape>),
    /// Anything else, such as a closure or an async block, which await on their own.
    Other,
}

/// A statement, as far as awaiting goes.
#[derive(Debug)]
pub enum StmtShape {
    /// An expression.
    Expr(ExprShape),
    /// A binding with its initial value, if it has one.
    Local(Option<ExprShape>),
    /// Anything else.
    Other,
}

/// How many await points an expression has: itself, in what it awaits, in a block,
/// in a called function or receiver, in an argument, or in another part.
pub open spec fn expr_points(expr: ExprShape) -> nat
    decreases expr,
{
    match expr {
        ExprShape::Await(base) => expr_points(*base) + 1,
        ExprShape::Block(stmts) => stmts_points(stmts, stmts@.len()),
        ExprShape::Call(func, args) => expr_points(*func) + exprs_points(args, args@.len()),
        ExprShape::MethodCall(receiver, args) => expr_points(*receiver) + exprs_points(
            args,
            args@.len(),
        ),
        ExprShape::Compound(parts) => exprs_points(parts, parts@.len()),
        ExprShape::Other => 0,
    }
}

/// How many await points the first `n` expressions have.
pub open spec fn exprs_points(exprs: Vec<ExprShape>, n: nat) -> nat
    decreases exprs, n,
{
    if 0 < n <= exprs@.len() {
        exprs_points(exprs, (n - 1) as nat) + expr_points(exprs@[n - 1])
    } else {
        0
    }
}

/// How many await points the first `n` statements have.
pub open spec fn stmts_points(stmts: Vec<StmtShape>, n: nat) -> nat
    decreases stmts, n,
{
    if 0 < n <= stmts@.len() {
        stmts_points(stmts, (n - 1) as nat) + stmt_points(stmts@[n - 1])
    } else {
        0
    }
}

/// How many await points a statement has.
pub open spec fn stmt_points(stmt: StmtShape) -> nat
    decreases stmt,
{
    match stmt {
        StmtShape::Expr(expr) => expr_points(expr),
        StmtShape::Local(Some(init)) => expr_points(init),
        StmtShape::Local(None) => 0,
        StmtShape::Other => 0,
    }
}

/// Whether an expression awaits.
pub open spec fn expr_awaits(expr: ExprShape) -> bool {
    expr_points(expr) > 0
}

/// Whether one of the first `n` statements awaits.
pub open spec fn stmts_await(stmts: Vec<StmtShape>, n: nat) -> bool {
    stmts_points(stmts, n) > 0
}

/// Whether a statement awaits.
pub open spec fn stmt_awaits(stmt: StmtShape) -> bool {
    stmt_points(stmt) > 0
}

/// A block awaits exactly if one of its statements does.
pub proof fn block_awaits_through_a_statement(stmts: Vec<StmtShape>, n: nat)
    requires
        n <= stmts@.len(),
    ensures
        stmts_await(stmts, n) <==> exists|i: int| 0 <= i < n && #[trigger] stmt_awaits(stmts@[i]),
    decreases n,
{
    if n > 0 {
        block_awaits_through_a_statement(stmts, (n - 1) as nat);
        let last = n - 1;
        if stmt_awaits(stmts@[last]) {
            assert(0 <= last < n && stmt_awaits(stmts@[last]));
        } else {
            assert(stmts_await(stmts, n) == stmts_await(stmts, (n - 1) as nat));
        }
    }
}

/// An await is found behind whatever is done with its value: an expression awaits if
/// one of its parts does.
pub proof fn compound_awaits_through_a_part(parts: Vec<ExprShape>, n: nat)
    requires
        n <= parts@.len(),
    ensures
        exprs_points(parts, n) > 0 <==> exists|i: int|
            0 <= i < n && #[trigger] expr_awaits(parts@[i]),
    decreases n,
{
    if n > 0 {
        compound_awaits_through_a_part(parts, (n - 1) as nat);
        let last = n - 1;
        if expr_awaits(parts@[last]) {
            assert(0 <= last < n && expr_awaits(parts@[last]));
        } else {
            assert(exprs_points(parts, n) == exprs_points(parts, (n - 1) as nat));
        }
    }
}

/// Whether an expression awaits.
pub fn expr_contains_await(expr: &ExprShape) -> (awaits: bool)
    ensures
        awaits == expr_awaits(*expr),
    decreases expr,
{
    match expr {
        ExprShape::Await(_) => true,
        ExprShape::Block(stmts) => any_stmt_contains_await(stmts),
        ExprShape::Call(func, args) => expr_contains_await(func) || any_expr_contains_await(args),
        ExprShape::MethodCall(receiver, args) => {
            expr_contains_await(receiver) || any_expr_contains_await(args)
        },
        ExprShape::Compound(parts) => any_expr_contains_await(parts),
        ExprShape::Other => false,
    }
}

fn any_expr_contains_await(exprs: &Vec<ExprShape>) -> (awaits: bool)
    ensures
        awaits == (exprs_points(*exprs, exprs@.len()) > 0),
    decreases exprs,
{
    let mut awaits: bool = false;
    let mut i: usize = 0;
    while i < exprs.len()
        invariant
            i <= exprs.len(),
            awaits == (exprs_points(*exprs, i as nat) > 0),
        decreases exprs.len() - i,
    {
        awaits = expr_contains_await(&exprs[i]) || awaits;
        i += 1;
    }
    awaits
}

fn any_stmt_contains_await(stmts: &Vec<StmtShape>) -> (awaits: bool)
    ensures
        awaits == stmts_await(*stmts, stmts@.len()),
    decreases stmts,
{
    let mut awaits: bool = false;
    let mut i: usize = 0;
    while i < stmts.len()
        invariant
            i <= stmts.len(),
            awaits == stmts_await(*stmts, i as nat),
        decreases stmts.len() - i,
    {
        awaits = stmt_contains_await(&stmts[i]) || awaits;
        i += 1;
    }
    awaits
}

/// Whether a statement awaits.
pub fn stmt_contains_await(stmt: &StmtShape) -> (awaits: bool)
    ensures
        awaits == stmt_awaits(*stmt),
    decreases stmt,
{
    match stmt {
        StmtShape::Expr(expr) => expr_contains_await(expr),
        StmtShape::Local(Some(init)) => expr_contains_await(init),
        StmtShape::Local(None) => false,
        StmtShape::Other => false,
    }
}

/// How many await points an expression has outside nested blocks. Those in a nested
/// block belong to the statements of that block.
pub open spec fn own_expr_points(expr: ExprShape) -> nat
    decreases expr,
{
    match expr {
        ExprShape::Await(base) => own_expr_points(*base) + 1,
        ExprShape::Block(_) => 0,
        ExprShape::Call(func, args) => own_expr_points(*func) + own_exprs_points(args, args@.len()),
        ExprShape::MethodCall(receiver, args) => own_expr_points(*receiver) + own_exprs_points(
            args,
            args@.len(),
        ),
        ExprShape::Compound(parts) => own_exprs_points(parts, parts@.len()),
        ExprShape::Other => 0,
    }
}

/// How many await points the first `n` expressions have outside nested blocks.
pub open spec fn own_exprs_points(exprs: Vec<ExprShape>, n: nat) -> nat
    decreases exprs, n,
{
    if 0 < n <= exprs@.len() {
        own_exprs_points(exprs, (n - 1) as nat) + own_expr_points(exprs@[n - 1])
    } else {
        0
    }
}

/// How many await points a statement has outside nested blocks.
pub open spec fn own_points(stmt: StmtShape) -> nat {
    match stmt {
        StmtShape::Expr(expr) => own_expr_points(expr),
        StmtShape::Local(Some(init)) => own_expr_points(init),
        StmtShape::Local(None) => 0,
        StmtShape::Other => 0,
    }
}

/// How many await points the first `n` statements have outside nested blocks.
pub open spec fn points_up_to(stmts: Seq<StmtShape>, n: nat) -> nat
    decreases n,
{
    if 0 < n <= stmts.len() {
        points_up_to(stmts, (n - 1) as nat) + own_points(stmts[n - 1])
    } else {
        0
    }
}

/// A statement with await points of its own awaits.
pub proof fn own_points_await(stmt: StmtShape)
    ensures
        own_points(stmt) <= stmt_points(stmt),
        own_points(stmt) > 0 ==> stmt_awaits(stmt),
{
    match stmt {
        StmtShape::Expr(expr) => lemma_own_expr_points(expr),
        StmtShape::Local(Some(init)) => lemma_own_expr_points(init),
        _ => {},
    }
}

proof fn lemma_own_expr_points(expr: ExprShape)
    ensures
        own_expr_points(expr) <= expr_points(expr),
    decreases expr,
{
    match expr {
        ExprShape::Await(base) => lemma_own_expr_points(*base),
        ExprShape::Call(func, args) => {
            lemma_own_expr_points(*func);
            lemma_own_exprs_points(args, args@.len());
        },
        ExprShape::MethodCall(receiver, args) => {
            lemma_own_expr_points(*receiver);
            lemma_own_exprs_points(args, args@.len());
        },
        ExprShape::Compound(parts) => lemma_own_exprs_points(parts, parts@.len()),
        _ => {},
    }
}

proof fn lemma_own_exprs_points(exprs: Vec<ExprShape>, n: nat)
    ensures
        own_exprs_points(exprs, n) <= exprs_points(exprs, n),
    decreases exprs, n,
{
    if 0 < n <= exprs@.len() {
        lemma_own_exprs_points(exprs, (n - 1) as nat);
        lemma_own_expr_points(exprs@[n - 1]);
    }
}

/// Counts the await points of an expression outside nested blocks.
fn count_in_expr(expr: &ExprShape) -> (points: u32)
    requires
        own_expr_points(*expr) <= u32::MAX,
    ensures
        points == own_expr_points(*expr),
    decreases expr,
{
    match expr {
        ExprShape::Await(base) => count_in_expr(base) + 1,
        ExprShape::Block(_) => 0,
        ExprShape::Call(func, args) => count_in_expr(func) + count_in_exprs(args),
        ExprShape::MethodCall(receiver, args) => count_in_expr(receiver) + count_in_exprs(args),
        ExprShape::Compound(parts) => count_in_exprs(parts),
        ExprShape::Other => 0,
    }
}

fn count_in_exprs(exprs: &Vec<ExprShape>) -> (points: u32)
    requires
        own_exprs_points(*exprs, exprs@.len()) <= u32::MAX,
    ensures
        points == own_exprs_points(*exprs, exprs@.len()),
    decreases exprs,
{
    let mut points: u32 = 0;
    let mut i: usize = 0;
    while i < exprs.len()
        invariant
            i <= exprs.len(),
            own_exprs_points(*exprs, exprs@.len()) <= u32::MAX,
            points == own_exprs_points(*exprs, i as nat),
        decreases exprs.len() - i,
    {
        proof {
            lemma_more_exprs(*exprs, (i + 1) as nat, exprs@.len());
        }
        points = points + count_in_expr(&exprs[i]);
        i += 1;
    }
    points
}

/// Counts the await points of a statement outside nested blocks.
fn count_in_stmt(stmt: &StmtShape) -> (points: u32)
    requires
        own_points(*stmt) <= u32::MAX,
    ensures
        points == own_points(*stmt),
{
    match stmt {
        StmtShape::Expr(expr) => count_in_expr(expr),
        StmtShape::Local(Some(init)) => count_in_expr(init),
        StmtShape::Local(None) => 0,
        StmtShape::Other => 0,
    }
}

proof fn lemma_more_exprs(exprs: Vec<ExprShape>, n: nat, more: nat)
    requires
        n <= more <= exprs@.len(),
    ensures
        own_exprs_points(exprs, n) <= own_exprs_points(exprs, more),
    decreases more,
{
    if n < more {
        lemma_more_exprs(exprs, n, (more - 1) as nat);
    }
}

proof fn lemma_more_stmts(stmts: Seq<StmtShape>, n: nat, more: nat)
    requires
        n <= more <= stmts.len(),
    ensures
        points_up_to(stmts, n) <= points_up_to(stmts, more),
    decreases more,
{
    if n < more {
        lemma_more_stmts(stmts, n, (more - 1) as nat);
    }
}

/// Whether the count of await points reaches or passes a multiple of the interval on
/// its way from `before` to `after`.
pub open spec fn interval_reached(before: int, after: int, interval: int) -> bool {
    after / interval > before / interval
}

/// Decides after which statements a budget check goes.
#[derive(Debug)]
pub struct BudgetInjector {
    config: BudgetConfig,
    poll_count: u32,
}

impl BudgetInjector {
    /// Await points counted so far.
    pub closed spec fn counted(self) -> u32 {
        self.poll_count
    }

    /// Check every so many await points.
    pub closed spec fn interval(self) -> u32 {
        match self.config.check_interval {
            Some(interval) => interval,
            None => 1,
        }
    }

    /// Starts counting await points.
    pub fn new(config: BudgetConfig) -> (injector: Self)
        ensures
            injector.counted() == 0,
            injector.interval() == (match config.check_interval {
                Some(interval) => interval,
                None => 1,
            }),
    {
        BudgetInjector { config, poll_count: 0 }
    }

    /// Says for each statement of a block whether a budget check follows it: with
    /// its own await points the count of them reaches a multiple of the interval.
    /// A nested block is a block of its own, so each await point is counted once.
    pub fn plan_block(&mut self, stmts: &Vec<StmtShape>) -> (checks: Vec<bool>)
        requires
            old(self).interval() > 0,
            old(self).counted() + points_up_to(stmts@, stmts@.len()) <= u32::MAX,
        ensures
            final(self).interval() == old(self).interval(),
            final(self).counted() == old(self).counted() + points_up_to(stmts@, stmts@.len()),
            checks@.len() == stmts@.len(),
            forall|i: int|
                0 <= i < stmts@.len() ==> #[trigger] checks@[i] == interval_reached(
                    old(self).counted() + points_up_to(stmts@, i as nat),
                    old(self).counted() + points_up_to(stmts@, (i + 1) as nat),
                    old(self).interval() as int,
                ),
    {
        let interval: u32 = match self.config.check_interval {
            Some(interval) => interval,
            None => 1,
        };
        let mut checks: Vec<bool> = Vec::new();
        while checks.len() < stmts.len()
            invariant
                checks.len() <= stmts.len(),
                old(self).counted() + points_up_to(stmts@, stmts@.len()) <= u32::MAX,
                interval > 0,
                interval == old(self).interval(),
                self.interval() == old(self).interval(),
                self.counted() == old(self).counted() + points_up_to(stmts@, checks@.len()),
                forall|i: int|
                    0 <= i < checks@.len() ==> #[trigger] checks@[i] == interval_reached(
                        old(self).counted() + points_up_to(stmts@, i as nat),
                        old(self).counted() + points_up_to(stmts@, (i + 1) as nat),
                        old(self).interval() as int,
                    ),
            decreases stmts.len() - checks.len(),
        {
            let i: usize = checks.len();
            proof {
                lemma_more_stmts(stmts@, (i + 1) as nat, stmts@.len());
            }
            let before: u32 = self.poll_count;
            self.poll_count = before + count_in_stmt(&stmts[i]);
            checks.push(self.poll_count / interval > before / interval);
        }
        checks
    }
}

/// At an interval of one, a check follows every statement with an await point of its
/// own and no other.
pub proof fn every_await_is_checked(stmts: Seq<StmtShape>, counted: u32, i: int)
    requires
        0 <= i < stmts.len(),
    ensures
        interval_reached(
            counted + points_up_to(stmts, i as nat),
            counted + points_up_to(stmts, (i + 1) as nat),
            1,
        ) == (own_points(stmts[i]) > 0),
{
}

/// A statement without await points of its own is not followed by a check. One with as
/// many as the interval always is, and of statements with one await point each the one
/// that completes a multiple of the interval.
pub proof fn checks_come_every_interval(before: nat, points: nat, interval: nat)
    requires
        interval > 0,
    ensures
        points == 0 ==> !interval_reached(before as int, (before + points) as int, interval as int),
        points >= interval ==> interval_reached(
            before as int,
            (before + points) as int,
            interval as int,
        ),
        points == 1 ==> interval_reached(before as int, (before + points) as int, interval as int)
            == ((before as int + 1) % (interval as int) == 0),
{
    let b = before as int;
    let n = interval as int;
    let a = b + points;
    vstd::arithmetic::div_mod::lemma_fundamental_div_mod(b, n);
    vstd::arithmetic::div_mod::lemma_fundamental_div_mod(a, n);
    vstd::arithmetic::div_mod::lemma_mod_bound(b, n);
    vstd::arithmetic::div_mod::lemma_mod_bound(a, n);
    let (p, q) = (b / n, a / n);
    if points >= interval {
        assert(q > p) by (nonlinear_arith)
            requires
                n > 0,
                a >= b + n,
                b == n * p + b % n,
                a == n * q + a % n,
                0 <= b % n < n,
                0 <= a % n < n,
        ;
    }
    if points == 1 {
        assert((q > p) == (a % n == 0)) by (nonlinear_arith)
            requires
                n > 0,
                a == b + 1,
                b == n * p + b % n,
                a == n * q + a % n,
                0 <= b % n < n,
                0 <= a % n < n,
        ;
    }
}

/// The budget after a check that was not passed: at least the minimum.
pub open spec fn refill(remaining: u32) -> u32 {
    if remaining < 100 {
        100
    } else {
        remaining
    }
}

/// Takes one operation off the budget. When that exhausts it, refills it and
/// returns `true`: the task has to yield.
pub fn check_budget(budget: &mut TaskBudget) -> (yields: bool)
    ensures
        yields == old(budget)@.consumed().exhausted(),
        final(budget)@ == (if yields {
            old(budget)@.consumed().refilled(refill(old(budget)@.consumed().remaining))
        } else {
            old(budget)@.consumed()
        }),
{
    if budget.consume() {
        let remaining: u32 = budget.remaining();
        budget.reset(
            if remaining < 100 {
                100
            } else {
                remaining
            },
        );
        true
    } else {
        false
    }
}

/// After a check a task can always go on: its budget is not exhausted.
pub proof fn checked_budget_is_not_exhausted(budget: BudgetModel)
    ensures
        !budget.consumed().refilled(refill(budget.consumed().remaining)).exhausted(),
        budget.consumed().exhausted() ==> budget.consumed().refilled(
            refill(budget.consumed().remaining),
        ).remaining == 100,
{
}

/// A check follows exactly where the count of await points passes a multiple of the
/// interval.
pub proof fn checks_follow_multiples_of_the_interval(before: int, after: int, interval: int)
    requires
        0 <= before <= after,
        interval > 0,
    ensures
        interval_reached(before, after, interval) <==> exists|k: int|
            before < #[trigger] (k * interval) <= after,
{
    let (p, q) = (before / interval, after / interval);
    vstd::arithmetic::div_mod::lemma_fundamental_div_mod(before, interval);
    vstd::arithmetic::div_mod::lemma_fundamental_div_mod(after, interval);
    vstd::arithmetic::div_mod::lemma_mod_bound(before, interval);
    vstd::arithmetic::div_mod::lemma_mod_bound(after, interval);
    assert(q * interval == interval * q && p * interval == interval * p) by (nonlinear_arith);
    if q > p {
        assert(q * interval >= p * interval + interval) by (nonlinear_arith)
            requires
                q >= p + 1,
                interval > 0,
        ;
        assert(before < q * interval <= after);
    }
    assert forall|k: int| before < #[trigger] (k * interval) <= after implies q > p by {
        assert(k > p) by (nonlinear_arith)
            requires
                k * interval > before,
                before >= p * interval,
                interval > 0,
        ;
        assert(k <= q) by (nonlinear_arith)
            requires
                k * interval <= after,
                after < q * interval + interval,
                interval > 0,
        ;
    }
}

/// Each await is one point more than there are in what it awaits. A call has those of
/// the function and of its arguments, a block those of its statements. Closures and the
/// like have none, and a nested block has none that belong to the statement around it.
pub proof fn await_points_add_up(
    inner: ExprShape,
    args: Vec<ExprShape>,
    stmts: Vec<StmtShape>,
    expr: ExprShape,
)
    ensures
        expr == ExprShape::Other ==> expr_points(expr) == 0 && own_expr_points(expr) == 0,
        expr is Await ==> expr_points(expr) == expr_points(*expr->Await_0) + 1
            && own_expr_points(expr) == own_expr_points(*expr->Await_0) + 1,
        expr is Block ==> expr_points(expr) == stmts_points(
            expr->Block_0,
            expr->Block_0@.len(),
        ) && own_expr_points(expr) == 0,
        expr is Call ==> expr_points(expr) == expr_points(*expr->Call_0) + exprs_points(
            expr->Call_1,
            expr->Call_1@.len(),
        ) && own_expr_points(expr) == own_expr_points(*expr->Call_0) + own_exprs_points(
            expr->Call_1,
            expr->Call_1@.len(),
        ),
        expr is MethodCall ==> expr_points(expr) == expr_points(*expr->MethodCall_0)
            + exprs_points(expr->MethodCall_1, expr->MethodCall_1@.len())
            && own_expr_points(expr) == own_expr_points(*expr->MethodCall_0) + own_exprs_points(
            expr->MethodCall_1,
            expr->MethodCall_1@.len(),
        ),
        expr is Compound ==> expr_points(expr) == exprs_points(
            expr->Compound_0,
            expr->Compound_0@.len(),
        ) && own_expr_points(expr) == own_exprs_points(
            expr->Compound_0,
            expr->Compound_0@.len(),
        ),
        exprs_points(args, 0) == 0 && own_exprs_points(args, 0) == 0 && stmts_points(stmts, 0)
            == 0,
        forall|n: nat|
            #![trigger exprs_points(args, n + 1)]
            #![trigger own_exprs_points(args, n + 1)]
            n < args@.len() ==> exprs_points(args, n + 1) == exprs_points(args, n) + expr_points(
                args@[n as int],
            ) && own_exprs_points(args, n + 1) == own_exprs_points(args, n) + own_expr_points(
                args@[n as int],
            ),
        forall|n: nat|
            #![trigger stmts_points(stmts, n + 1)]
            n < stmts@.len() ==> stmts_points(stmts, n + 1) == stmts_points(stmts, n)
                + stmt_points(stmts@[n as int]),
        stmt_points(StmtShape::Expr(inner)) == expr_points(inner),
        stmt_points(StmtShape::Local(Some(inner))) == expr_points(inner),
        stmt_points(StmtShape::Local(None)) == 0,
        stmt_points(StmtShape::Other) == 0,
        own_points(StmtShape::Expr(inner)) == own_expr_points(inner),
        own_points(StmtShape::Local(Some(inner))) == own_expr_points(inner),
        own_points(StmtShape::Local(None)) == 0,
        own_points(StmtShape::Other) == 0,
        points_up_to(stmts@, 0) == 0,
        forall|n: nat|
            #![trigger points_up_to(stmts@, n + 1)]
            n < stmts@.len() ==> points_up_to(stmts@, n + 1) == points_up_to(stmts@, n)
                + own_points(stmts@[n as int]),
{
}

/// An argument sets one thing and leaves the others. A budget is an integer from 100 to
/// 10,000, a deadline a boolean, an interval an integer above zero. All else is refused.
pub proof fn arguments_set_one_thing(config: BudgetConfig, arg: ArgModel)
    ensures
        ({
            let budget = arg.name == Some("budget"@);
            let deadline = arg.name == Some("deadline"@);
            let interval = arg.name == Some("check_interval"@);
            match applied(config, arg) {
                Ok(after) => {
                    ||| {
                        &&& budget
                        &&& arg.value matches ValueModel::Int(number) && 100 <= number <= 10_000
                            && after == (BudgetConfig { budget: Some(number), ..config })
                    }
                    ||| {
                        &&& deadline
                        &&& arg.value matches ValueModel::Bool(boolean) && after
                            == (BudgetConfig { deadline: Some(boolean), ..config })
                    }
                    ||| {
                        &&& interval
                        &&& arg.value matches ValueModel::Int(number) && number > 0 && after
                            == (BudgetConfig { check_interval: Some(number), ..config })
                    }
                },
                Err((site, _)) => {
                    &&& !(budget && (arg.value matches ValueModel::Int(number) && 100 <= number
                        <= 10_000))
                    &&& !(deadline && arg.value is Bool)
                    &&& !(interval && (arg.value matches ValueModel::Int(number) && number > 0))
                    &&& site == ErrorSite::Argument <==> !budget && !deadline && !interval
                    &&& site == ErrorSite::Value <==> (budget || deadline || interval)
                        && arg.value is NotLiteral
                },
            }
        }),
{
    lemma_names_differ();
}

proof fn lemma_names_differ()
    ensures
        "budget"@ != "deadline"@,
        "budget"@ != "check_interval"@,
        "deadline"@ != "check_interval"@,
{
    reveal_strlit("budget");
    reveal_strlit("deadline");
    reveal_strlit("check_interval");
    assert("budget"@.len() != "deadline"@.len());
    assert("budget"@.len() != "check_interval"@.len());
    assert("deadline"@.len() != "check_interval"@.len());
}

/// Arguments take effect one after the other, beginning with a budget of 2000, no
/// deadline and a check at every await point, up to the first that is refused.
pub proof fn arguments_take_effect_in_order(args: Seq<ArgModel>, n: nat)
    requires
        n < args.len(),
    ensures
        applied_all(args, 0) == Ok::<BudgetConfig, (nat, ErrorSite, Seq<char>)>(
            BudgetConfig { budget: Some(2000), deadline: Some(false), check_interval: Some(1) },
        ),
        match applied_all(args, n) {
            Ok(config) => match applied(config, args[n as int]) {
                Ok(after) => applied_all(args, n + 1) == Ok::<
                    BudgetConfig,
                    (nat, ErrorSite, Seq<char>),
                >(after),
                Err((site, message)) => applied_all(args, n + 1) == Err::<
                    BudgetConfig,
                    (nat, ErrorSite, Seq<char>),
                >((n, site, message)),
            },
            Err(error) => applied_all(args, n + 1) == Err::<
                BudgetConfig,
                (nat, ErrorSite, Seq<char>),
            >(error),
        },
{
}

/// A result agrees with the arguments exactly when it is the configuration that they
/// amount to, or names the argument that is refused first, the place and the reason.
pub proof fn outcomes_are_what_the_arguments_amount_to(
    args: Seq<ArgModel>,
    config: BudgetConfig,
    error: ArgError,
)
    ensures
        outcome_agrees(args, Ok(config)) <==> applied_all(args, args.len()) == Ok::<
            BudgetConfig,
            (nat, ErrorSite, Seq<char>),
        >(config),
        outcome_agrees(args, Err(error)) <==> applied_all(args, args.len()) == Err::<
            BudgetConfig,
            (nat, ErrorSite, Seq<char>),
        >((error.index as nat, error.site, error.message@)),
{
}

} // verus!
