//! The parser: what it knows at a point of the source, and the way from a
//! source text to a program.
use std::sync::Arc;
use vstd::prelude::*;
use vstd::string::*;
use crate::types::datatype::{
    arguments_model, lemma_function_model, Argument, ArgumentModel, Datatype, DatatypeModel,
};
use crate::types::program::{Program, ProgramModel, ProgramStatement};
use crate::types::statement::Case;
use crate::utils::random_name::{mangled, unique_identifier};
use crate::utils::shared::share;

pub mod binary_operation;
pub mod datatype;
pub mod declaration;
pub mod expression;
pub mod function_definition;
pub mod identifier;
pub mod names;
pub mod number;
pub mod program;
pub mod scope;
pub mod statement;
pub mod trivial_tokens;
pub mod whitespace;

verus! {

/// Why parsing gave up. `Backtrack` says that a rule did not match: the
/// rule that tried it goes on with its next alternative. Every other error
/// ends the parse.
#[derive(Debug, Clone, Copy, PartialEq, Eq, Structural)]
pub enum ParseError {
    Backtrack,
    DuplicateParameterNames,
    SignatureMismatch,
    TernaryTypeMismatch,
    ArgumentCountMismatch,
    ArgumentTypeMismatch,
    NotCallable,
    DereferenceOfNonPointer,
    BreakOutsideLoop,
    ContinueOutsideLoop,
    CaseOutsideSwitch,
    NonConstantCase,
    UndeclaredIdentifier,
    NumberTooLarge,
    TooManyIdentifiers,
}

/// A local variable or a parameter: the name in the source, the unique name
/// it got, and its type.
#[derive(Debug)]
pub struct ParserVariable {
    pub name: String,
    pub unique_name: String,
    pub datatype: Datatype,
}

/// A function known by its name.
#[derive(Debug)]
pub struct ParserStaticSymbol {
    pub name: String,
    pub datatype: Datatype,
}

/// A name that an expression may use.
#[derive(Debug)]
pub enum ParserSymbol {
    Variable(ParserVariable),
    Argument(ParserVariable),
    Function(ParserStaticSymbol),
}

/// What a variable stands for.
pub struct VariableModel {
    pub name: Seq<char>,
    pub unique_name: Seq<char>,
    pub datatype: DatatypeModel,
}

/// What a known function stands for.
pub struct StaticSymbolModel {
    pub name: Seq<char>,
    pub datatype: DatatypeModel,
}

/// What a symbol stands for.
pub enum SymbolModel {
    Variable(VariableModel),
    Argument(VariableModel),
    Function(StaticSymbolModel),
}

impl View for ParserVariable {
    type V = VariableModel;

    open spec fn view(&self) -> VariableModel {
        VariableModel { name: self.name@, unique_name: self.unique_name@, datatype: self.datatype@ }
    }
}

impl View for ParserStaticSymbol {
    type V = StaticSymbolModel;

    open spec fn view(&self) -> StaticSymbolModel {
        StaticSymbolModel { name: self.name@, datatype: self.datatype@ }
    }
}

impl View for ParserSymbol {
    type V = SymbolModel;

    open spec fn view(&self) -> SymbolModel {
        match self {
            ParserSymbol::Variable(variable) => SymbolModel::Variable(variable@),
            ParserSymbol::Argument(variable) => SymbolModel::Argument(variable@),
            ParserSymbol::Function(function) => SymbolModel::Function(function@),
        }
    }
}

impl Clone for ParserVariable {
    fn clone(&self) -> (copy: Self)
        ensures
            copy@ == self@,
    {
        ParserVariable {
            name: self.name.clone(),
            unique_name: self.unique_name.clone(),
            datatype: self.datatype.clone(),
        }
    }
}

impl Clone for ParserStaticSymbol {
    fn clone(&self) -> (copy: Self)
        ensures
            copy@ == self@,
    {
        ParserStaticSymbol { name: self.name.clone(), datatype: self.datatype.clone() }
    }
}

impl Clone for ParserSymbol {
    fn clone(&self) -> (copy: Self)
        ensures
            copy@ == self@,
    {
        match self {
            ParserSymbol::Variable(variable) => ParserSymbol::Variable(variable.clone()),
            ParserSymbol::Argument(variable) => ParserSymbol::Argument(variable.clone()),
            ParserSymbol::Function(function) => ParserSymbol::Function(function.clone()),
        }
    }
}

/// The type of a symbol.
pub open spec fn symbol_type(symbol: SymbolModel) -> DatatypeModel {
    match symbol {
        SymbolModel::Variable(variable) => variable.datatype,
        SymbolModel::Argument(variable) => variable.datatype,
        SymbolModel::Function(function) => function.datatype,
    }
}

/// The name under which a lookup finds a variable or a parameter: its
/// unique name if `unique` is set, else its name in the source. A function
/// is not found among the variables.
pub open spec fn symbol_key(symbol: SymbolModel, unique: bool) -> Option<Seq<char>> {
    match symbol {
        SymbolModel::Variable(variable) => Some(
            if unique {
                variable.unique_name
            } else {
                variable.name
            },
        ),
        SymbolModel::Argument(variable) => Some(
            if unique {
                variable.unique_name
            } else {
                variable.name
            },
        ),
        SymbolModel::Function(_) => None,
    }
}

/// The first symbol of a scope that `key` finds, looking from place `from`
/// on.
pub open spec fn find_symbol(
    symbols: Seq<SymbolModel>,
    key: Seq<char>,
    unique: bool,
    from: int,
) -> Option<
    SymbolModel,
>
    decreases symbols.len() - from,
{
    if from < 0 || from >= symbols.len() {
        None
    } else if symbol_key(symbols[from], unique) == Some(key) {
        Some(symbols[from])
    } else {
        find_symbol(symbols, key, unique, from + 1)
    }
}

/// The symbol that `key` finds in the innermost of the first `depth` scopes
/// that holds one.
pub open spec fn find_in_scopes(
    scopes: Seq<Seq<SymbolModel>>,
    key: Seq<char>,
    unique: bool,
    depth: int,
) -> Option<SymbolModel>
    decreases depth,
{
    if depth <= 0 || depth > scopes.len() {
        None
    } else {
        match find_symbol(scopes[depth - 1], key, unique, 0) {
            Some(symbol) => Some(symbol),
            None => find_in_scopes(scopes, key, unique, depth - 1),
        }
    }
}

/// The first known function called `name`, looking from place `from` on.
pub open spec fn find_static(symbols: Seq<StaticSymbolModel>, name: Seq<char>, from: int) -> Option<
    StaticSymbolModel,
>
    decreases symbols.len() - from,
{
    if from < 0 || from >= symbols.len() {
        None
    } else if symbols[from].name == name {
        Some(symbols[from])
    } else {
        find_static(symbols, name, from + 1)
    }
}

/// The variables among the first `count` symbols, in order; parameters and
/// functions are left out.
pub open spec fn only_variables(symbols: Seq<SymbolModel>, count: int) -> Seq<VariableModel>
    decreases count,
{
    if count <= 0 {
        Seq::empty()
    } else {
        match symbols[count - 1] {
            SymbolModel::Variable(variable) => only_variables(symbols, count - 1).push(variable),
            _ => only_variables(symbols, count - 1),
        }
    }
}

/// The models of a list of variables, in order.
pub open spec fn variables_model(variables: Seq<ParserVariable>) -> Seq<VariableModel> {
    Seq::new(variables.len(), |i: int| variables[i]@)
}

/// The symbols of one scope, in the order of their declaration.
#[derive(Debug)]
pub struct ParserScopeState {
    pub symbols: Vec<Arc<ParserSymbol>>,
}

impl View for ParserScopeState {
    type V = Seq<SymbolModel>;

    open spec fn view(&self) -> Seq<SymbolModel> {
        Seq::new(self.symbols@.len(), |i: int| self.symbols@[i]@)
    }
}

impl Clone for ParserScopeState {
    fn clone(&self) -> (copy: Self)
        ensures
            copy@ == self@,
    {
        let mut symbols: Vec<Arc<ParserSymbol>> = Vec::new();
        let mut i: usize = 0;
        while i < self.symbols.len()
            invariant
                i <= self.symbols.len(),
                symbols@ == self.symbols@.take(i as int),
            decreases self.symbols.len() - i,
        {
            symbols.push(share(&self.symbols[i]));
            assert(symbols@ =~= self.symbols@.take(i + 1));
            i = i + 1;
        }
        assert(self.symbols@.take(i as int) =~= self.symbols@);
        let copy = ParserScopeState { symbols };
        assert(copy@ =~= self@);
        copy
    }
}

impl ParserScopeState {
    /// A scope without symbols.
    pub fn new() -> (scope: Self)
        ensures
            scope@ == Seq::<SymbolModel>::empty(),
    {
        let scope = ParserScopeState { symbols: Vec::new() };
        assert(scope@ =~= Seq::<SymbolModel>::empty());
        scope
    }

    /// Declares the variable `name`, which gets the unique name of request
    /// number `identifier`, and returns it.
    pub fn add_variable(&mut self, name: String, datatype: Datatype, identifier: u64) -> (symbol:
        ParserSymbol)
        ensures
            symbol@ == SymbolModel::Variable(
                VariableModel {
                    name: name@,
                    unique_name: mangled(name@, identifier as nat),
                    datatype: datatype@,
                },
            ),
            final(self)@ == old(self)@.push(symbol@),
    {
        let unique_name = unique_identifier(name.as_str(), identifier);
        self.add_argument(ParserSymbol::Variable(ParserVariable { name, unique_name, datatype }))
    }

    /// Adds a symbol to the scope and returns it.
    pub fn add_argument(&mut self, variable: ParserSymbol) -> (symbol: ParserSymbol)
        ensures
            symbol@ == variable@,
            final(self)@ == old(self)@.push(variable@),
    {
        self.insert_variable(variable.clone());
        variable
    }

    /// Adds a symbol to the scope.
    pub fn insert_variable(&mut self, symbol: ParserSymbol)
        ensures
            final(self)@ == old(self)@.push(symbol@),
    {
        self.symbols.push(Arc::new(symbol));
        assert(self@ =~= old(self)@.push(symbol@));
    }

    /// The first symbol that `key` finds: by unique name if `unique` is set,
    /// else by the name in the source.
    pub fn find(&self, key: &str, unique: bool) -> (symbol: Option<Arc<ParserSymbol>>)
        ensures
            match symbol {
                Some(found) => find_symbol(self@, key@, unique, 0) == Some(found@),
                None => find_symbol(self@, key@, unique, 0) is None,
            },
    {
        let wanted = String::from_str(key);
        let mut i: usize = 0;
        while i < self.symbols.len()
            invariant
                i <= self.symbols.len(),
                self@.len() == self.symbols.len(),
                wanted@ == key@,
                find_symbol(self@, key@, unique, 0) == find_symbol(self@, key@, unique, i as int),
            decreases self.symbols.len() - i,
        {
            assert(self@[i as int] == self.symbols@[i as int]@);
            let matches = match &*self.symbols[i] {
                ParserSymbol::Variable(variable) => if unique {
                    variable.unique_name == wanted
                } else {
                    variable.name == wanted
                },
                ParserSymbol::Argument(variable) => if unique {
                    variable.unique_name == wanted
                } else {
                    variable.name == wanted
                },
                ParserSymbol::Function(_) => false,
            };
            if matches {
                return Some(share(&self.symbols[i]));
            }
            i = i + 1;
        }
        None
    }

    /// The first variable or parameter called `variable` in the source.
    pub fn get_symbol(&self, variable: &str) -> (symbol: Option<Arc<ParserSymbol>>)
        ensures
            match symbol {
                Some(found) => find_symbol(self@, variable@, false, 0) == Some(found@),
                None => find_symbol(self@, variable@, false, 0) is None,
            },
    {
        self.find(variable, false)
    }

    /// The variables of the scope, in order, without the parameters and the
    /// functions.
    pub fn get_only_variables(&self) -> (variables: Vec<ParserVariable>)
        ensures
            variables_model(variables@) == only_variables(self@, self@.len() as int),
    {
        let mut variables: Vec<ParserVariable> = Vec::new();
        let mut i: usize = 0;
        assert(variables_model(variables@) =~= only_variables(self@, 0));
        while i < self.symbols.len()
            invariant
                i <= self.symbols.len(),
                self@.len() == self.symbols.len(),
                variables_model(variables@) == only_variables(self@, i as int),
            decreases self.symbols.len() - i,
        {
            assert(self@[i as int] == self.symbols@[i as int]@);
            let ghost before = variables_model(variables@);
            match &*self.symbols[i] {
                ParserSymbol::Variable(variable) => {
                    variables.push(variable.clone());
                    assert(variables_model(variables@) =~= before.push(variable@));
                },
                ParserSymbol::Argument(_) => {},
                ParserSymbol::Function(_) => {},
            }
            i = i + 1;
        }
        variables
    }
}

/// A loop or a `switch` that the parser is inside of: its identifier,
/// whether it is a loop, and the labels that a `switch` has met so far.
#[derive(Debug)]
pub struct LoopState {
    pub id: String,
    pub is_loop: bool,
    pub cases: Vec<Case>,
}

/// What a loop or `switch` in progress stands for.
pub struct LoopModel {
    pub id: Seq<char>,
    pub is_loop: bool,
    pub cases: Seq<Case>,
}

impl View for LoopState {
    type V = LoopModel;

    open spec fn view(&self) -> LoopModel {
        LoopModel { id: self.id@, is_loop: self.is_loop, cases: self.cases@ }
    }
}

/// What the parser knows at a point of the source: the scopes that are
/// open, innermost last; every variable of the current function; the
/// functions declared so far; the loops and `switch`es that are open,
/// innermost last; and how many unique names were handed out.
#[derive(Debug)]
pub struct ParserState {
    pub scope: Vec<ParserScopeState>,
    pub function_scope: ParserScopeState,
    pub static_symbols: Vec<ParserStaticSymbol>,
    pub loop_state: Vec<LoopState>,
    pub identifiers: u64,
}

/// What the state of the parser stands for.
pub struct ParserStateModel {
    pub scopes: Seq<Seq<SymbolModel>>,
    pub function_scope: Seq<SymbolModel>,
    pub static_symbols: Seq<StaticSymbolModel>,
    pub loops: Seq<LoopModel>,
    pub identifiers: nat,
}

impl View for ParserState {
    type V = ParserStateModel;

    open spec fn view(&self) -> ParserStateModel {
        ParserStateModel {
            scopes: Seq::new(self.scope@.len(), |i: int| self.scope@[i]@),
            function_scope: self.function_scope@,
            static_symbols: Seq::new(self.static_symbols@.len(), |i: int| self.static_symbols@[i]@),
            loops: Seq::new(self.loop_state@.len(), |i: int| self.loop_state@[i]@),
            identifiers: self.identifiers as nat,
        }
    }
}

/// The symbol that `name` names: a variable or parameter of the innermost
/// scope that has one, else a function.
pub open spec fn lookup(
    state: ParserStateModel,
    name: Seq<char>,
    unique: bool,
) -> Option<SymbolModel> {
    match find_in_scopes(state.scopes, name, unique, state.scopes.len() as int) {
        Some(symbol) => Some(symbol),
        None => match find_static(state.static_symbols, name, 0) {
            Some(function) => Some(SymbolModel::Function(function)),
            None => None,
        },
    }
}

/// The innermost of the first `depth` open loops and `switch`es that is a
/// loop, if `loops` is set, or a `switch`, if it is not.
pub open spec fn innermost(entries: Seq<LoopModel>, loops: bool, depth: int) -> Option<int>
    decreases depth,
{
    if depth <= 0 || depth > entries.len() {
        None
    } else if entries[depth - 1].is_loop == loops {
        Some(depth - 1)
    } else {
        innermost(entries, loops, depth - 1)
    }
}

/// The state with one more unique name handed out.
pub open spec fn counted(state: ParserStateModel) -> ParserStateModel {
    ParserStateModel { identifiers: state.identifiers + 1, ..state }
}

/// The state after a loop or `switch` was entered.
pub open spec fn with_loop(
    state: ParserStateModel,
    name: Seq<char>,
    is_loop: bool,
) -> ParserStateModel {
    ParserStateModel {
        loops: state.loops.push(
            LoopModel { id: mangled(name, state.identifiers), is_loop, cases: Seq::empty() },
        ),
        identifiers: state.identifiers + 1,
        ..state
    }
}

/// The state after the innermost loop or `switch` was left.
pub open spec fn without_loop(state: ParserStateModel) -> ParserStateModel {
    ParserStateModel { loops: state.loops.drop_last(), ..state }
}

/// The state after a scope was opened.
pub open spec fn with_scope(state: ParserStateModel) -> ParserStateModel {
    ParserStateModel { scopes: state.scopes.push(Seq::empty()), ..state }
}

/// The state after the innermost scope was closed.
pub open spec fn without_scope(state: ParserStateModel) -> ParserStateModel {
    ParserStateModel { scopes: state.scopes.drop_last(), ..state }
}

/// The state after a symbol was added to the innermost scope and to the
/// symbols of the function.
pub open spec fn with_symbol(state: ParserStateModel, symbol: SymbolModel) -> ParserStateModel {
    ParserStateModel {
        scopes: state.scopes.update(
            state.scopes.len() - 1,
            state.scopes[state.scopes.len() - 1].push(symbol),
        ),
        function_scope: state.function_scope.push(symbol),
        ..state
    }
}

/// The state after the variable `name` was declared.
pub open spec fn with_variable(
    state: ParserStateModel,
    name: Seq<char>,
    datatype: DatatypeModel,
) -> ParserStateModel {
    counted(with_symbol(state, variable_symbol(state, name, datatype)))
}

/// The symbol of the variable `name` declared in `state`.
pub open spec fn variable_symbol(
    state: ParserStateModel,
    name: Seq<char>,
    datatype: DatatypeModel,
) -> SymbolModel {
    SymbolModel::Variable(
        VariableModel { name, unique_name: mangled(name, state.identifiers), datatype },
    )
}

/// The state after a function became known.
pub open spec fn with_static(
    state: ParserStateModel,
    symbol: StaticSymbolModel,
) -> ParserStateModel {
    ParserStateModel { static_symbols: state.static_symbols.push(symbol), ..state }
}

/// The type of a function with the given parameters and result.
pub open spec fn function_type(
    arguments: Seq<ArgumentModel>,
    result: DatatypeModel,
) -> DatatypeModel {
    DatatypeModel::Function { return_type: Box::new(result), arguments }
}

/// The state at the start of the body of a function: the function is known,
/// and no variable of a function is held yet.
pub open spec fn with_function(
    state: ParserStateModel,
    name: Seq<char>,
    arguments: Seq<ArgumentModel>,
    result: DatatypeModel,
) -> ParserStateModel {
    ParserStateModel {
        static_symbols: state.static_symbols.push(
            StaticSymbolModel { name, datatype: function_type(arguments, result) },
        ),
        function_scope: Seq::empty(),
        ..state
    }
}

/// The state after the innermost `switch`, at place `place`, met a label.
pub open spec fn with_case(state: ParserStateModel, place: int, case: Case) -> ParserStateModel {
    ParserStateModel {
        loops: state.loops.update(
            place,
            LoopModel { cases: state.loops[place].cases.push(case), ..state.loops[place] },
        ),
        ..state
    }
}

impl ParserState {
    /// At least one scope is open.
    pub open spec fn well_formed(&self) -> bool {
        self.scope@.len() >= 1
    }

    /// The state before the first function: one open scope, nothing known.
    pub fn new() -> (state: Self)
        ensures
            state.well_formed(),
            state@ == (ParserStateModel {
                scopes: seq![Seq::empty()],
                function_scope: Seq::empty(),
                static_symbols: Seq::empty(),
                loops: Seq::empty(),
                identifiers: 0,
            }),
    {
        let state = ParserState {
            scope: vec![ParserScopeState::new()],
            function_scope: ParserScopeState::new(),
            loop_state: Vec::new(),
            static_symbols: Vec::new(),
            identifiers: 0,
        };
        assert(state@.scopes =~= seq![Seq::<SymbolModel>::empty()]);
        assert(state@.static_symbols =~= Seq::empty());
        assert(state@.loops =~= Seq::empty());
        state
    }

    /// Enters a loop or a `switch` called `t`: it gets a fresh identifier,
    /// which is returned.
    pub fn push_loop(&mut self, t: String, is_loop: bool) -> (id: String)
        requires
            old(self).identifiers < u64::MAX,
        ensures
            id@ == mangled(t@, old(self)@.identifiers),
            final(self)@ == with_loop(old(self)@, t@, is_loop),
            final(self).scope == old(self).scope,
    {
        let id = unique_identifier(t.as_str(), self.identifiers);
        self.identifiers = self.identifiers + 1;
        self.loop_state.push(LoopState { id: id.clone(), is_loop, cases: Vec::new() });
        assert(self@.loops =~= with_loop(old(self)@, t@, is_loop).loops);
        id
    }

    /// Leaves the innermost loop or `switch`.
    pub fn pop_loop(&mut self) -> (left: LoopState)
        requires
            old(self)@.loops.len() >= 1,
        ensures
            left@ == old(self)@.loops.last(),
            final(self)@ == without_loop(old(self)@),
            final(self).scope == old(self).scope,
    {
        let left = self.loop_state.pop().unwrap();
        assert(self@.loops =~= old(self)@.loops.drop_last());
        left
    }

    /// The open loop or `switch` at place `place`.
    fn entry(&self, place: usize) -> (entry: &LoopState)
        requires
            place < self.loop_state@.len(),
        ensures
            entry@ == self@.loops[place as int],
    {
        &self.loop_state[place]
    }

    /// The place of the innermost loop, if `loops` is set, or `switch`.
    fn innermost_place(&self, loops: bool) -> (place: Option<usize>)
        ensures
            match place {
                Some(found) => innermost(self@.loops, loops, self@.loops.len() as int) == Some(
                    found as int,
                ) && found < self.loop_state@.len(),
                None => innermost(self@.loops, loops, self@.loops.len() as int) is None,
            },
    {
        let mut depth: usize = self.loop_state.len();
        while depth > 0
            invariant
                depth <= self.loop_state.len(),
                self@.loops.len() == self.loop_state.len(),
                innermost(self@.loops, loops, self@.loops.len() as int) == innermost(
                    self@.loops,
                    loops,
                    depth as int,
                ),
            decreases depth,
        {
            assert(self@.loops[depth - 1] == self.loop_state@[depth - 1]@);
            if self.loop_state[depth - 1].is_loop == loops {
                return Some(depth - 1);
            }
            depth = depth - 1;
        }
        None
    }

    /// The innermost open loop, for `continue`.
    pub fn get_loop(&self) -> (entry: Option<&LoopState>)
        ensures
            match entry {
                Some(found) => innermost(self@.loops, true, self@.loops.len() as int) matches Some(
                    place,
                ) && found@ == self@.loops[place],
                None => innermost(self@.loops, true, self@.loops.len() as int) is None,
            },
    {
        match self.innermost_place(true) {
            Some(place) => Some(self.entry(place)),
            None => None,
        }
    }

    /// The innermost open `switch`, for its labels.
    pub fn get_switch(&self) -> (entry: Option<&LoopState>)
        ensures
            match entry {
                Some(found) => innermost(self@.loops, false, self@.loops.len() as int) matches Some(
                    place,
                ) && found@ == self@.loops[place],
                None => innermost(self@.loops, false, self@.loops.len() as int) is None,
            },
    {
        match self.innermost_place(false) {
            Some(place) => Some(self.entry(place)),
            None => None,
        }
    }

    /// The innermost open loop or `switch`, for `break`.
    pub fn get_loop_or_switch(&self) -> (entry: Option<&LoopState>)
        ensures
            match entry {
                Some(found) => self@.loops.len() >= 1 && found@ == self@.loops.last(),
                None => self@.loops.len() == 0,
            },
    {
        if self.loop_state.len() == 0 {
            None
        } else {
            Some(self.entry(self.loop_state.len() - 1))
        }
    }

    /// Notes that the innermost open `switch` met the label `case`.
    pub fn push_case_to_switch(&mut self, case: Case)
        requires
            innermost(old(self)@.loops, false, old(self)@.loops.len() as int) is Some,
        ensures
            final(self)@ == with_case(
                old(self)@,
                innermost(old(self)@.loops, false, old(self)@.loops.len() as int).unwrap(),
                case,
            ),
            final(self).scope == old(self).scope,
            final(self)@.loops.len() == old(self)@.loops.len(),
    {
        let place = self.innermost_place(false).unwrap();
        let mut entry = self.loop_state.remove(place);
        entry.cases.push(case);
        let ghost updated = entry@;
        self.loop_state.insert(place, entry);
        assert(self@.loops =~= old(self)@.loops.update(place as int, updated));
    }

    /// Opens a scope.
    pub fn push_scope(&mut self)
        ensures
            final(self)@ == with_scope(old(self)@),
            final(self).well_formed(),
    {
        self.scope.push(ParserScopeState::new());
        assert(self@.scopes =~= old(self)@.scopes.push(Seq::empty()));
    }

    /// Closes the innermost scope and returns it.
    pub fn pop_scope(&mut self) -> (closed: ParserScopeState)
        requires
            old(self)@.scopes.len() >= 2,
        ensures
            closed@ == old(self)@.scopes.last(),
            final(self)@ == without_scope(old(self)@),
            final(self).well_formed(),
    {
        let closed = self.scope.pop().unwrap();
        assert(self@.scopes =~= old(self)@.scopes.drop_last());
        closed
    }

    /// The innermost scope.
    pub fn get_current_scope(&mut self) -> (scope: &mut ParserScopeState)
        requires
            old(self).well_formed(),
        ensures
            *scope == old(self).scope@.last(),
            final(self).scope@ == old(self).scope@.update(
                old(self).scope@.len() - 1,
                *final(scope),
            ),
            final(self).function_scope == old(self).function_scope,
            final(self).static_symbols == old(self).static_symbols,
            final(self).loop_state == old(self).loop_state,
            final(self).identifiers == old(self).identifiers,
    {
        let last = self.scope.len() - 1;
        &mut self.scope[last]
    }

    /// Declares the variable `variable` in the innermost scope and returns
    /// its symbol, which carries its unique name.
    pub fn add_variable(&mut self, variable: String, datatype: Datatype) -> (symbol: ParserSymbol)
        requires
            old(self).well_formed(),
            old(self).identifiers < u64::MAX,
        ensures
            final(self).well_formed(),
            symbol@ == variable_symbol(old(self)@, variable@, datatype@),
            final(self)@ == with_variable(old(self)@, variable@, datatype@),
    {
        let identifier = self.identifiers;
        self.identifiers = self.identifiers + 1;
        let symbol = self.get_current_scope().add_variable(variable, datatype, identifier);
        self.function_scope.insert_variable(symbol.clone());
        assert(self@.scopes =~= with_variable(old(self)@, variable@, datatype@).scopes);
        symbol
    }

    /// Adds a symbol to the innermost scope and returns it.
    pub fn add_argument(&mut self, symbol: ParserSymbol) -> (added: ParserSymbol)
        requires
            old(self).well_formed(),
        ensures
            final(self).well_formed(),
            added@ == symbol@,
            final(self)@ == with_symbol(old(self)@, symbol@),
    {
        let added = self.get_current_scope().add_argument(symbol);
        self.function_scope.insert_variable(added.clone());
        assert(self@.scopes =~= with_symbol(old(self)@, symbol@).scopes);
        added
    }

    /// Makes a function known.
    pub fn add_static_symbol(&mut self, symbol: ParserStaticSymbol)
        ensures
            final(self)@ == with_static(old(self)@, symbol@),
            final(self).scope == old(self).scope,
    {
        self.static_symbols.push(symbol);
        assert(self@.static_symbols =~= old(self)@.static_symbols.push(symbol@));
    }

    /// Starts the function `name`: the function becomes known, and the
    /// variables of the function before it are forgotten.
    pub fn start_function_scope(&mut self, name: String, arguments: Vec<Argument>, ret: Datatype)
        ensures
            final(self)@ == with_function(old(self)@, name@, arguments_model(arguments@), ret@),
            final(self).scope == old(self).scope,
    {
        let datatype = Datatype::Function { return_type: Arc::new(ret), arguments };
        proof {
            lemma_function_model(datatype);
        }
        self.add_static_symbol(ParserStaticSymbol { name, datatype });
        self.function_scope = ParserScopeState::new();
    }

    /// The first known function called `name`.
    pub fn find_function(&self, name: &str) -> (function: Option<&ParserStaticSymbol>)
        ensures
            match function {
                Some(found) => find_static(self@.static_symbols, name@, 0) == Some(found@),
                None => find_static(self@.static_symbols, name@, 0) is None,
            },
    {
        let wanted = String::from_str(name);
        let mut i: usize = 0;
        while i < self.static_symbols.len()
            invariant
                i <= self.static_symbols.len(),
                self@.static_symbols.len() == self.static_symbols.len(),
                wanted@ == name@,
                find_static(self@.static_symbols, name@, 0) == find_static(
                    self@.static_symbols,
                    name@,
                    i as int,
                ),
            decreases self.static_symbols.len() - i,
        {
            assert(self@.static_symbols[i as int] == self.static_symbols@[i as int]@);
            if self.static_symbols[i].name == wanted {
                return Some(&self.static_symbols[i]);
            }
            i = i + 1;
        }
        None
    }

    /// The symbol that `key` names: by unique name if `unique` is set, else
    /// by the name in the source.
    pub fn find(&self, key: &str, unique: bool) -> (symbol: Option<ParserSymbol>)
        ensures
            match symbol {
                Some(found) => lookup(self@, key@, unique) == Some(found@),
                None => lookup(self@, key@, unique) is None,
            },
    {
        let mut depth: usize = self.scope.len();
        while depth > 0
            invariant
                depth <= self.scope.len(),
                self@.scopes.len() == self.scope.len(),
                find_in_scopes(self@.scopes, key@, unique, self@.scopes.len() as int)
                    == find_in_scopes(self@.scopes, key@, unique, depth as int),
            decreases depth,
        {
            assert(self@.scopes[depth - 1] == self.scope@[depth - 1]@);
            match self.scope[depth - 1].find(key, unique) {
                Some(symbol) => {
                    return Some((*symbol).clone());
                },
                None => {},
            }
            depth = depth - 1;
        }
        match self.find_function(key) {
            Some(function) => Some(ParserSymbol::Function(function.clone())),
            None => None,
        }
    }

    /// The symbol that `symbol` names in the source at this point.
    pub fn get_symbol(&self, symbol: &str) -> (found: Option<ParserSymbol>)
        ensures
            match found {
                Some(found) => lookup(self@, symbol@, false) == Some(found@),
                None => lookup(self@, symbol@, false) is None,
            },
    {
        self.find(symbol, false)
    }

    /// The variable or parameter with the unique name `unique_name`, or the
    /// function with that name.
    pub fn get_by_unique_name(&self, unique_name: &str) -> (found: Option<ParserSymbol>)
        ensures
            match found {
                Some(found) => lookup(self@, unique_name@, true) == Some(found@),
                None => lookup(self@, unique_name@, true) is None,
            },
    {
        self.find(unique_name, true)
    }
}

impl Clone for LoopState {
    fn clone(&self) -> (copy: Self)
        ensures
            copy@ == self@,
    {
        let mut cases: Vec<Case> = Vec::new();
        let mut i: usize = 0;
        while i < self.cases.len()
            invariant
                i <= self.cases.len(),
                cases@ == self.cases@.take(i as int),
            decreases self.cases.len() - i,
        {
            cases.push(self.cases[i]);
            assert(cases@ =~= self.cases@.take(i + 1));
            i = i + 1;
        }
        assert(self.cases@.take(i as int) =~= self.cases@);
        LoopState { id: self.id.clone(), is_loop: self.is_loop, cases }
    }
}

/// The state with the variable that was declared last forgotten.
pub open spec fn without_variable(state: ParserStateModel) -> ParserStateModel {
    ParserStateModel {
        scopes: state.scopes.update(
            state.scopes.len() - 1,
            state.scopes[state.scopes.len() - 1].drop_last(),
        ),
        function_scope: state.function_scope.drop_last(),
        identifiers: (state.identifiers - 1) as nat,
        ..state
    }
}

/// The state with the loop that was entered last forgotten.
pub open spec fn unentered(state: ParserStateModel) -> ParserStateModel {
    ParserStateModel {
        loops: state.loops.drop_last(),
        identifiers: (state.identifiers - 1) as nat,
        ..state
    }
}

/// Forgetting a variable right after it was declared gives the state
/// before.
pub proof fn lemma_forget_variable(
    state: ParserStateModel,
    name: Seq<char>,
    datatype: DatatypeModel,
)
    requires
        state.scopes.len() >= 1,
    ensures
        without_variable(with_variable(state, name, datatype)) == state,
{
    let declared = with_variable(state, name, datatype);
    let last = state.scopes.len() - 1;
    assert(declared.scopes[last].drop_last() =~= state.scopes[last]);
    assert(without_variable(declared).scopes =~= state.scopes);
    assert(without_variable(declared).function_scope =~= state.function_scope);
}

/// Forgetting a loop right after it was entered gives the state before.
pub proof fn lemma_forget_loop(state: ParserStateModel, name: Seq<char>, is_loop: bool)
    ensures
        unentered(with_loop(state, name, is_loop)) == state,
{
    assert(unentered(with_loop(state, name, is_loop)).loops =~= state.loops);
}

impl ParserState {
    /// A copy of the state.
    pub fn snapshot(&self) -> (copy: ParserState)
        ensures
            copy@ == self@,
            copy.well_formed() == self.well_formed(),
    {
        let mut scope: Vec<ParserScopeState> = Vec::new();
        let mut i: usize = 0;
        while i < self.scope.len()
            invariant
                i <= self.scope.len(),
                scope@.len() == i,
                forall|j: int| 0 <= j < i ==> (#[trigger] scope@[j])@ == self.scope@[j]@,
            decreases self.scope.len() - i,
        {
            scope.push(self.scope[i].clone());
            i = i + 1;
        }
        let mut static_symbols: Vec<ParserStaticSymbol> = Vec::new();
        let mut i: usize = 0;
        while i < self.static_symbols.len()
            invariant
                i <= self.static_symbols.len(),
                static_symbols@.len() == i,
                forall|j: int|
                    0 <= j < i ==> (#[trigger] static_symbols@[j])@ == self.static_symbols@[j]@,
            decreases self.static_symbols.len() - i,
        {
            static_symbols.push(self.static_symbols[i].clone());
            i = i + 1;
        }
        let mut loop_state: Vec<LoopState> = Vec::new();
        let mut i: usize = 0;
        while i < self.loop_state.len()
            invariant
                i <= self.loop_state.len(),
                loop_state@.len() == i,
                forall|j: int| 0 <= j < i ==> (#[trigger] loop_state@[j])@ == self.loop_state@[j]@,
            decreases self.loop_state.len() - i,
        {
            loop_state.push(self.loop_state[i].clone());
            i = i + 1;
        }
        let copy = ParserState {
            scope,
            function_scope: self.function_scope.clone(),
            static_symbols,
            loop_state,
            identifiers: self.identifiers,
        };
        assert(copy@.scopes =~= self@.scopes);
        assert(copy@.static_symbols =~= self@.static_symbols);
        assert(copy@.loops =~= self@.loops);
        copy
    }

    /// Forgets the variable that was declared last.
    pub fn forget_variable(&mut self)
        requires
            old(self).well_formed(),
            old(self)@.scopes.last().len() >= 1,
            old(self)@.function_scope.len() >= 1,
            old(self).identifiers >= 1,
        ensures
            final(self)@ == without_variable(old(self)@),
            final(self).well_formed(),
    {
        self.identifiers = self.identifiers - 1;
        self.function_scope.symbols.pop();
        let last = self.scope.len() - 1;
        assert(old(self)@.scopes[last as int] == old(self).scope@[last as int]@);
        self.scope[last].symbols.pop();
        assert(self@.function_scope =~= old(self)@.function_scope.drop_last());
        assert(self@.scopes[last as int] =~= old(self)@.scopes[last as int].drop_last());
        assert(self@.scopes =~= without_variable(old(self)@).scopes);
    }

    /// Forgets the loop or `switch` that was entered last.
    pub fn forget_loop(&mut self)
        requires
            old(self)@.loops.len() >= 1,
            old(self).identifiers >= 1,
        ensures
            final(self)@ == unentered(old(self)@),
            final(self).scope == old(self).scope,
    {
        self.identifiers = self.identifiers - 1;
        self.loop_state.pop();
        assert(self@.loops =~= old(self)@.loops.drop_last());
    }
}

/// The state in which a program is parsed from its start.
pub open spec fn initial_state() -> ParserStateModel {
    ParserStateModel {
        scopes: seq![Seq::empty()],
        function_scope: Seq::empty(),
        static_symbols: Seq::empty(),
        loops: Seq::empty(),
        identifiers: 0,
    }
}

/// The program that a source text is, if it is one: a text of ASCII
/// characters that holds functions, one after the other, and nothing else.
pub open spec fn program(source: Seq<char>) -> Result<ProgramModel, ParseError> {
    if !vstd::utf8::is_ascii_chars(source) {
        Err(ParseError::Backtrack)
    } else {
        match program::program_items(source, 0, initial_state(), Seq::empty()) {
            Ok((functions, _, after)) => Ok(
                ProgramModel { functions, identifiers: after.identifiers },
            ),
            Err(error) => Err(error),
        }
    }
}

/// Parses a program.
pub fn parse_program(input: &str) -> (result: Result<Program, ParseError>)
    ensures
        match result {
            Ok(read) => program(input@) == Ok::<_, ParseError>(read@),
            Err(error) => program(input@) == Err::<ProgramModel, _>(error),
        },
{
    if !input.is_ascii() {
        return Err(ParseError::Backtrack);
    }
    let mut state = ParserState::new();
    let found: Vec<ProgramStatement> = Vec::new();
    assert(program::statements_model(found@) =~= Seq::empty());
    let functions = program::parse_program(input, 0, &mut state, found)?;
    Ok(Program { functions, identifiers: state.identifiers })
}

} // verus!
