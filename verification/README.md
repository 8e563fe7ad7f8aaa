# blender

Composable blenders: small pieces that each produce a tuple of extracted values
or a rejection, chained with `and` (run one, then the other, and concatenate
their extracts) and `try_blend` (hand the extract to a callback whose future
gives the result).

Layout:

- `src/` is the verified library (Verus):
  - `rejection.rs`: `Rejection`, how the rejections of two stages combine, and
    the laws of combining reasons (identity, associativity).
  - `combine.rs`: heterogeneous lists (`Product`, `HList`), tuples (`Tuple`) up
    to sixteen elements, their one-to-one correspondence, and concatenation with
    its laws (the empty tuple on either side, associativity).
  - `func.rs`: `Func`, calling a closure with the elements of a tuple or list,
    and that both forms make the same call.
  - `blender/`: the `And` and `TryBlend` blenders and the state machines that
    decide every step of their futures.
- `app/` is the async side: the `BlenderBase`/`Blender` traits, the futures that
  poll inner futures and feed what they find to the state machines, and `any`.
- `tests/` exercises the library.
