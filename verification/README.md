# Flash Book

The rules of an exchange for perpetual futures with an order book and a liquidity
pool, written in Verus: every function states what it returns, what it refuses and
what it leaves unchanged, and is proved to do so.

- `src/` is the library. It knows no runtime: accounts are plain values, and the
  clock, token balances and the answers of the margin engine, the funding curve, the
  haircut arithmetic, the price envelope and the pool's quoter come in as arguments.
  - `state`, `events`, `errors`, `constants`, `keys`, `math`: what the rest speaks of.
  - `book`, `matching`, `orders`, `triggers`, `triggers_v3`, `trailing`, `twap`,
    `iceberg`, `baskets`, `baskets_n`: orders of all kinds.
  - `position`, `fees`, `tiers`, `mark`, `settlement`, `fill_laws`, `funding`: what a
    fill and the passing of time do to two traders and a market.
  - `flp`, `flp_settlement`, `flp_v3`, `quoter`, `vaults`, `vaults_v3`: pooled capital.
  - `collateral`, `margin_mode`, `risk`, `liquidation`, `portfolio_liquidation`,
    `deleveraging`, `jit_offers`, `insurance`, `haircut`: collateral and its loss.
  - `market`, `oracle`, `pyth`, `envelope`, `delegation`, `trader`, `pda`: setting up and
    running a market.
- Public proof functions named `law_…` state what holds across functions.
- `tests/` runs the library on concrete values.
- `app/` reads and writes accounts, moves tokens and calls other programs. It has no
  entry point of its own.

A function that can refuse comes with a spec function that gives the refusal for every
input; where there is none, the function succeeds. On refusal nothing changes, unless
the function says otherwise.
