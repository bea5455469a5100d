# i24

A 24-bit signed integer type, `i24`, in `-8,388,608 ..= 8,388,607`, verified with Verus.

- `src/spec.rs`: the model: range, 24-bit pattern, reduction to 24 bits, bytes in
  either order, truncating division, with their lemmas.
- `src/int24.rs`: the type, its view (the integer it stands for), conversions to and
  from `i32` and bytes, and checked arithmetic.
- `src/ops.rs`, `src/ops_ref.rs`: the operators (wrapping arithmetic, bitwise
  operations, shifts), on values and on references.
- `src/order.rs`: `==` and `<` by hand, stated over the integer a value stands for.
- `src/numeral.rs`, `src/parse.rs`: reading from text in any radix and writing decimal text.
- `src/laws.rs`: properties of the library as a whole: round trips, the ring laws
  of wrapping arithmetic (additive group, multiplicative monoid, distributivity),
  the division identity, shifts, bitwise operations.
- `app/lib.rs`: a copy of the type with `Display`, the hex/octal/binary formats,
  `num_traits` and `bytemuck`, which a type of the library cannot carry.
