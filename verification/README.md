# akasha

The logic of Akasha, a serverless Discord bot with gacha probability
calculators, as a library verified with Verus.

- `src/discord.rs`: the Discord interaction data model and its numeric codes.
- `src/utils.rs`: the errors, and the HTTP status each is answered with.
- `src/text.rs`: decimal rendering and parsing of numbers.
- `src/signing.rs`: Ed25519 keys and signatures from `ed25519-dalek`, each
  kept with the bytes it was decoded from.
- `src/bot.rs`: authentication of requests (hex decoding through the `hex`
  crate, then the Ed25519 check).
- `src/handler.rs`: what an interaction is answered with and which command it goes to.
- `src/commands/`: the slash commands, their options, and the integer side of
  the calculators (binomial coefficients, option checks, messages).
- `src/registration.rs`: what is sent to Discord to register the commands.
- `app/`: the Cloudflare worker: routing, reading requests, JSON, the Discord
  API call, and the floating-point probability calculations.
