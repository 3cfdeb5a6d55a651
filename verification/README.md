# rooc

The core of ROOC, a language for writing optimization models, as a verified
Verus library.

`src/` holds the verified library:

- `math`: the operators of the language (binding strength, associativity,
  text and LaTeX forms), comparisons and objective directions, and the bounds
  check of integer variable ranges.
- `lexer`, `consts`, `math_exp_enums`: the token grammar of the first version
  of the language, source spans, and parse errors.
- `parser`: expression parsing by operator precedence (implicit
  multiplication, unary minus), block function kinds, the text of variable
  domains, turning a list of values into a list of one kind, and the errors
  of turning a parsed problem into a model with their traces.
- `primitives`: values, tuples and lists of values, their kinds and which
  operators apply to them, spreading values into their parts, exact
  arithmetic on integers and booleans, graphs, and LaTeX lists. A number is
  held as the bit pattern of its `f64` value.
- `type_checker`, `parser::il::il_exp`: the expressions of the intermediate
  language and their type rules: the kind of an expression, the check of
  operators, calls, reads at positions and iterations against the variables
  in scope, and the kinds recorded for each token. The type checker's
  knowledge (frames of variable kinds, the names of the model's domain
  variables, recorded tokens) and the function signatures are plain values.
- `pipe`: the kinds of data and the stages of the solving pipeline.

`app/` holds what stays outside the proofs: serialisable copies of the
library's plain types, and the floating-point side of values (number
literals, real results of operators, edge weights and their printing).
