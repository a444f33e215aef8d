use vstd::prelude::*;

verus! {

/// The tag that the grammar gives each node of a parse tree.
#[allow(non_camel_case_types)]
#[derive(Debug, Clone, Copy, PartialEq, Eq, Hash, PartialOrd, Ord, Structural)]
pub enum Rule {
    EOI,
    input,
    file,
    // literals
    atom,
    boolean,
    boolean_true,
    boolean_false,
    float,
    integer,
    integer_decimal,
    integer_hexadecimal,
    integer_octal,
    integer_binary,
    integer_zero,
    string,
    string_content,
    local,
    typename,
    typespec,
    // names
    ident,
    keyword,
    methodname,
    methodnamewithpredicate,
    property_get,
    // compound forms
    array,
    map,
    map_pair,
    call_local,
    call_method,
    call_argument,
    constructor,
    constructor_property,
    declaration,
    assign,
    if_expression,
    block,
    argument_list,
    argument,
    property_set,
    property,
    unary,
    infix,
    instance_infix,
    function,
    function_clause,
    // definitions
    typedef,
    traitdef,
    traitbounds,
    impldef,
    defpublicmethod,
    defpublicspec,
    defprivatemethod,
    defstaticmethod,
    defstaticspec,
    return_type,
    // operators
    logical_not,
    logical_or,
    logical_and,
    equal,
    not_equal,
    greater_than_or_equal,
    less_than_or_equal,
    greater_than,
    less_than,
    bitwise_xor,
    bitwise_or,
    bitwise_and,
    shift_right,
    shift_left,
    plus,
    minus,
    modulus,
    divide,
    multiply,
    exponent,
}

} // verus!
