# infra_shared

A verified library for an infrastructure builder: the configurations of VPC,
EC2, EBS and EKS builds, the presets that make them production ready, their
monthly cost estimates, the credentials of AWS accounts, the registry of builds
and the decisions of terraform and git runs. Every function in `src/` carries a
Verus contract.

Money is counted in hundredths of a cent (`text::UNITS_PER_DOLLAR` per dollar),
so every price and sum is exact.

- `src/text.rs`: text comparison, decimal rendering, money formatting.
- `src/models.rs`: kinds, statuses, configurations and their defaults, estimates.
- `src/cost.rs`: the rate tables and the four cost estimates.
- `src/presets.rs`: production-ready presets and their laws.
- `src/auth.rs`: AWS accounts, environment variables, provider blocks, masking.
- `src/why.rs`: why a production-ready build makes each of its choices.
- `src/builds.rs`: builds, the build registry, terraform runs, git publishing.
- `app/`: the web application around the library (pages, server functions,
  serializable copies of the library's types).
