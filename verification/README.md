# castle_vault

The allocation, weighting and share arithmetic of a yield-aggregating vault that lends one
reserve token across three lending markets (Solend, Port and Jet), verified with Verus.
Solend's and Port's reserve arithmetic is called in their crates; Jet's is not available
here, so the library takes the value of the vault's Jet position as an input.

- `src/` is the verified library:
  - `asset_container`, `backend_container`, `backend_fields`: containers with one value per
    lending market, the max-yield and equal-allocation weightings over them, the weight
    check and the expected APR;
  - `rate`, `precise`: fixed-point arithmetic, computed by `solana_maths` and `spl_math`;
  - `markets`: the Solend and Port reserves as the vault reads them (utilization, borrow
    rate, LP exchange), computed by `spl_token_lending` and
    `port_variable_rate_lending_instructions`;
  - `math`: LP tokens minted for a deposit and reserve tokens handed out for a withdrawal;
  - `state`, `last_update`, `strategies`, `assets`, `ranking`, `events`, `adapters`: the
    vault's numbers, strategies and bookkeeping;
  - `instructions`: what each instruction decides and changes, apart from the token
    transfers and lending-market calls that carry it out.
- `app/` is the host side: it performs the deposits and redemptions that the library
  decides.
- `tests/` exercises the library with the outside crates linked.
