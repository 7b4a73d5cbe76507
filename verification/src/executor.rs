//! The executor: runs a program, a function, a block, a statement.

use vstd::prelude::*;
use crate::error::RuntimeError;
use crate::text::join3;
use crate::evaluator::Evaluator;
use crate::floats::Floats;
use crate::frame::{Frame, FrameView};
use crate::logger::{logged, Level, Logger};
use crate::semantics::{
    call_function,
    control_result,
    exec_block,
    exec_stmt,
    exec_while,
    run_entry,
    run_program,
    value_result,
    Control,
};
use crate::symbols::values_of;
use crate::tree::{BlockNode, FuncNode, ProgramNode, StmtNode, StmtView};
use crate::value::{value_views, Value, ValueView};

verus! {

/// The executor of a program.
pub struct Executor {
    pub program: ProgramNode,
}

impl Executor {
    /// The executor of the given program, which the analyzer has decorated.
    pub fn new(program: ProgramNode) -> (r: Executor)
        ensures
            r.program == program,
    {
        Executor { program }
    }

    /// Runs the program: see [`run_program`](crate::semantics::run_program).
    /// The result is the value that `main` returns.
    pub fn execute(&self, floats: &Floats, logger: &mut Logger, fuel: u64) -> (r: Result<
        Value,
        RuntimeError,
    >)
        ensures
            ({
                let outcome = run_program(
                    self.program@,
                    old(logger)@.level,
                    floats@,
                    old(logger)@.output,
                    fuel as nat,
                );
                &&& final(logger)@.level == old(logger)@.level
                &&& final(logger)@.output == outcome.output
                &&& value_result(r) == outcome.result
            }),
    {
        logger.info("Execute.");
        self.execute_program(floats, logger, fuel)
    }

    /// Finds `main`, makes the global frame and calls `main` in it: see
    /// [`run_entry`](crate::semantics::run_entry).
    pub fn execute_program(&self, floats: &Floats, logger: &mut Logger, fuel: u64) -> (r: Result<
        Value,
        RuntimeError,
    >)
        ensures
            ({
                let outcome = run_entry(
                    self.program@,
                    old(logger)@.level,
                    floats@,
                    old(logger)@.output,
                    fuel as nat,
                );
                &&& final(logger)@.level == old(logger)@.level
                &&& final(logger)@.output == outcome.output
                &&& value_result(r) == outcome.result
            }),
    {
        logger.info("Execute Program.");
        let mut global = Frame::new(None, None);
        global.init_symbols(&self.program.symbols);
        let ghost table = values_of(
            self.program@.symbols.entries,
            self.program@.symbols.entries.len() as int,
        );
        assert(global@.values =~= table);
        let index = match global.values.get("main") {
            Some(Value::Func(func, _)) => func.index,
            Some(_) => {
                return Err(RuntimeError::MainNotFunction);
            },
            None => {
                return Err(RuntimeError::NoMain);
            },
        };
        if index >= self.program.func_nodes.len() {
            return Err(RuntimeError::MainNotFunction);
        }
        let arguments = vec![Value::I32(1)];
        assert(value_views(arguments@) =~= seq![ValueView::I32(1)]);
        assert(global@ == (FrameView { globals: None, values: table, parent: None }));
        let value = Self::execute_function(
            &self.program,
            floats,
            &self.program.func_nodes[index],
            &global,
            arguments,
            logger,
            fuel,
        )?;
        logger.info("Program finished.");
        Ok(value)
    }

    /// Runs a function with the given arguments: see
    /// [`call_function`](crate::semantics::call_function).
    pub fn execute_function<'a>(
        program: &ProgramNode,
        floats: &Floats,
        func: &FuncNode,
        globals: &'a Frame<'a>,
        arguments: Vec<Value>,
        logger: &mut Logger,
        fuel: u64,
    ) -> (r: Result<Value, RuntimeError>)
        ensures
            ({
                let outcome = call_function(
                    program@,
                    old(logger)@.level,
                    floats@,
                    func@,
                    globals@,
                    value_views(arguments@),
                    old(logger)@.output,
                    fuel as nat,
                );
                &&& final(logger)@.level == old(logger)@.level
                &&& final(logger)@.output == outcome.output
                &&& value_result(r) == outcome.result
            }),
        decreases fuel, 2int,
    {
        let name = &func.name;
        logger.debug(join3("calling function '", name.as_str(), "'.").as_str());
        if func.numParameters() > arguments.len() {
            return Err(RuntimeError::NotEnoughArguments(name.clone()));
        }
        if func.numParameters() < arguments.len() {
            return Err(RuntimeError::TooManyArguments(name.clone()));
        }
        let mut locals = Frame::new(Some(globals), None);
        locals.init_parameters(&func.parameters, arguments);
        match Self::execute_block_without_scope(
            program,
            floats,
            &func.block_node,
            &mut locals,
            logger,
            fuel,
        ) {
            Ok((_, value)) => Ok(value),
            Err(failure) => Err(failure),
        }
    }

    /// Runs the statements of a block in the given frame, without a frame
    /// of its own: see [`exec_block`](crate::semantics::exec_block).
    pub fn execute_block_without_scope<'a>(
        program: &ProgramNode,
        floats: &Floats,
        block: &BlockNode,
        locals: &mut Frame<'a>,
        logger: &mut Logger,
        fuel: u64,
    ) -> (r: Result<(Control, Value), RuntimeError>)
        ensures
            ({
                let outcome = exec_block(
                    program@,
                    old(logger)@.level,
                    floats@,
                    block@.statements,
                    0,
                    old(locals)@,
                    old(logger)@.output,
                    fuel as nat,
                );
                &&& final(logger)@.level == old(logger)@.level
                &&& final(locals)@ == outcome.frame
                &&& final(logger)@.output == outcome.output
                &&& control_result(r) == outcome.result
            }),
        decreases fuel, 1int, block,
    {
        let ghost statements = block@.statements;
        let mut i: usize = 0;
        while i < block.statements.len()
            invariant
                i <= block.statements.len(),
                statements == block@.statements,
                statements.len() == block.statements.len(),
                logger@.level == old(logger)@.level,
                exec_block(
                    program@,
                    logger@.level,
                    floats@,
                    statements,
                    i as int,
                    locals@,
                    logger@.output,
                    fuel as nat,
                ) == exec_block(
                    program@,
                    logger@.level,
                    floats@,
                    statements,
                    0,
                    old(locals)@,
                    old(logger)@.output,
                    fuel as nat,
                ),
            decreases block.statements.len() - i,
        {
            proof {
                assert(decreases_to!(block.statements => block.statements[i as int]));
                assert(statements[i as int] == block.statements[i as int]@);
            }
            match Self::execute_statement(
                program,
                floats,
                &block.statements[i],
                locals,
                logger,
                fuel,
            ) {
                Ok((Control::Next, _)) => {},
                Ok((Control::Return, value)) => {
                    return Ok((Control::Return, value));
                },
                Err(failure) => {
                    return Err(failure);
                },
            }
            i = i + 1;
        }
        Ok((Control::Next, Value::Nil))
    }

    /// Runs a statement in the given frame: see
    /// [`exec_stmt`](crate::semantics::exec_stmt).
    pub fn execute_statement<'a>(
        program: &ProgramNode,
        floats: &Floats,
        statement: &StmtNode,
        locals: &mut Frame<'a>,
        logger: &mut Logger,
        fuel: u64,
    ) -> (r: Result<(Control, Value), RuntimeError>)
        ensures
            ({
                let outcome = exec_stmt(
                    program@,
                    old(logger)@.level,
                    floats@,
                    statement@,
                    old(locals)@,
                    old(logger)@.output,
                    fuel as nat,
                );
                &&& final(logger)@.level == old(logger)@.level
                &&& final(locals)@ == outcome.frame
                &&& final(logger)@.output == outcome.output
                &&& control_result(r) == outcome.result
            }),
        decreases fuel, 1int, statement,
    {
        match statement {
            StmtNode::Let(_) => {
                logger.debug("ignoring let statement");
                Ok((Control::Next, Value::Nil))
            },
            StmtNode::Assign(assign) => {
                logger.debug("executing assign statement");
                let value = match Evaluator::evaluate(
                    program,
                    floats,
                    &assign.expr,
                    locals,
                    logger,
                    fuel,
                ) {
                    Ok(value) => value,
                    Err(failure) => {
                        return Err(failure);
                    },
                };
                locals.assign(&assign.name, value);
                Ok((Control::Next, Value::Nil))
            },
            StmtNode::Return(ret) => {
                logger.debug("executing return statement");
                let value = match Evaluator::evaluate(
                    program,
                    floats,
                    &ret.expr,
                    locals,
                    logger,
                    fuel,
                ) {
                    Ok(value) => value,
                    Err(failure) => {
                        return Err(failure);
                    },
                };
                Ok((Control::Return, value))
            },
            StmtNode::Print(print) => {
                logger.debug("executing print statement");
                let value = match Evaluator::evaluate(
                    program,
                    floats,
                    &print.expr,
                    locals,
                    logger,
                    fuel,
                ) {
                    Ok(value) => value,
                    Err(failure) => {
                        return Err(failure);
                    },
                };
                value.print(logger);
                Ok((Control::Next, Value::Nil))
            },
            StmtNode::While(while_node) => {
                logger.debug("executing while statement");
                let ghost traced = logger@.output;
                let mut remaining: u64 = fuel;
                loop
                    invariant
                        remaining <= fuel,
                        statement is While,
                        statement->While_0 == *while_node,
                        statement@ == StmtView::While(
                            while_node.condition@,
                            while_node.body@,
                        ),
                        traced == logged(
                            old(logger)@.level,
                            old(logger)@.output,
                            Level::Debug,
                            "executing while statement"@,
                        ),
                        logger@.level == old(logger)@.level,
                        exec_while(
                            program@,
                            logger@.level,
                            floats@,
                            statement@,
                            locals@,
                            logger@.output,
                            remaining as nat,
                        ) == exec_while(
                            program@,
                            logger@.level,
                            floats@,
                            statement@,
                            old(locals)@,
                            traced,
                            fuel as nat,
                        ),
                    decreases remaining,
                {
                    let condition = match Evaluator::evaluate(
                        program,
                        floats,
                        &while_node.condition,
                        locals,
                        logger,
                        remaining,
                    ) {
                        Ok(value) => value,
                        Err(failure) => {
                            return Err(failure);
                        },
                    };
                    match condition {
                        Value::Bool(true) => {},
                        _ => {
                            return Ok((Control::Next, Value::Nil));
                        },
                    }
                    if remaining == 0 {
                        return Err(RuntimeError::OutOfFuel);
                    }
                    match Self::execute_block_without_scope(
                        program,
                        floats,
                        &while_node.body,
                        locals,
                        logger,
                        remaining,
                    ) {
                        Ok((Control::Next, _)) => {},
                        Ok((Control::Return, value)) => {
                            return Ok((Control::Return, value));
                        },
                        Err(failure) => {
                            return Err(failure);
                        },
                    }
                    remaining = remaining - 1;
                }
            },
            StmtNode::IfElse(if_else_node) => {
                logger.debug("executing if else statement");
                let condition = match Evaluator::evaluate(
                    program,
                    floats,
                    &if_else_node.condition,
                    locals,
                    logger,
                    fuel,
                ) {
                    Ok(value) => value,
                    Err(failure) => {
                        return Err(failure);
                    },
                };
                if let Value::Bool(b) = condition {
                    if b {
                        logger.debug("executing if body");
                        return Self::execute_block_without_scope(
                            program,
                            floats,
                            &if_else_node.ifBody,
                            locals,
                            logger,
                            fuel,
                        );
                    }
                    match &if_else_node.elseBody {
                        Some(block) => {
                            logger.debug("executing else body");
                            Self::execute_block_without_scope(
                                program,
                                floats,
                                block,
                                locals,
                                logger,
                                fuel,
                            )
                        },
                        None => Ok((Control::Next, Value::Nil)),
                    }
                } else {
                    Err(RuntimeError::ConditionNotBool)
                }
            },
        }
    }
}

} // verus!
